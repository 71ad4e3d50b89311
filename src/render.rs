use vstd::prelude::*;
use crate::map_tiles::MapSymbol;

verus! {

/// One character cell of the console drawing of a board: a piece of the hex
/// frame, or the symbol of a tile.
#[derive(Clone, Copy, PartialEq, Eq, Structural, Debug)]
pub enum BoardCell {
    Frame(char),
    Symbol(MapSymbol),
}

/// Four frame characters.
pub open spec fn frame4(a: char, b: char, c: char, d: char) -> Seq<BoardCell> {
    seq![BoardCell::Frame(a), BoardCell::Frame(b), BoardCell::Frame(c), BoardCell::Frame(d)]
}

/// `pattern` written `n` times.
pub open spec fn repeated(pattern: Seq<BoardCell>, n: nat) -> Seq<BoardCell>
    decreases n,
{
    if n == 0 {
        seq![]
    } else {
        repeated(pattern, (n - 1) as nat) + pattern
    }
}

/// The first `n` tiles of an even row: `| X ` for each.
pub open spec fn even_tiles(symbols: Seq<MapSymbol>, n: nat) -> Seq<BoardCell>
    decreases n,
{
    if n == 0 {
        seq![]
    } else {
        even_tiles(symbols, (n - 1) as nat) + seq![
            BoardCell::Frame('|'),
            BoardCell::Frame(' '),
            BoardCell::Symbol(symbols[n - 1]),
            BoardCell::Frame(' '),
        ]
    }
}

/// The first `n` tiles of an odd row: ` | X` for each.
pub open spec fn odd_tiles(symbols: Seq<MapSymbol>, n: nat) -> Seq<BoardCell>
    decreases n,
{
    if n == 0 {
        seq![]
    } else {
        odd_tiles(symbols, (n - 1) as nat) + seq![
            BoardCell::Frame(' '),
            BoardCell::Frame('|'),
            BoardCell::Frame(' '),
            BoardCell::Symbol(symbols[n - 1]),
        ]
    }
}

/// The edge above an even row: ` / \_/ \_ ... /`.
pub open spec fn top_edge(width: nat) -> Seq<BoardCell> {
    seq![BoardCell::Frame(' ')] + repeated(frame4('/', ' ', '\\', '_'), width) + seq![BoardCell::Frame('/')]
}

/// The edge above an odd row: ` \_/ \_/ ... \`.
pub open spec fn middle_edge(width: nat) -> Seq<BoardCell> {
    repeated(frame4(' ', '\\', '_', '/'), width) + seq![BoardCell::Frame(' '), BoardCell::Frame('\\')]
}

pub open spec fn even_row(symbols: Seq<MapSymbol>, width: nat) -> Seq<BoardCell> {
    even_tiles(symbols, width) + seq![BoardCell::Frame('|')]
}

/// An odd row, shifted half a hex to the right.
pub open spec fn odd_row(symbols: Seq<MapSymbol>, width: nat) -> Seq<BoardCell> {
    seq![BoardCell::Frame(' ')] + odd_tiles(symbols, width) + seq![BoardCell::Frame(' '), BoardCell::Frame('|')]
}

/// The edge below the last row, which leans by that row's parity.
pub open spec fn bottom_edge(width: nat, height: nat) -> Seq<BoardCell> {
    (if height % 2 == 1 {
        seq![BoardCell::Frame(' '), BoardCell::Frame('\\')]
    } else {
        seq![]
    }) + repeated(frame4(' ', '/', ' ', '\\'), width) + (if height % 2 == 0 {
        seq![BoardCell::Frame(' '), BoardCell::Frame('/')]
    } else {
        seq![]
    })
}

/// The lines that draw a `width` by `height` board whose row `j` shows the
/// symbols `symbols[j]`, as many as that row holds: for each row the edge
/// above it and the row itself, then the bottom edge and an empty line.
pub open spec fn board_lines(width: nat, height: nat, symbols: Seq<Seq<MapSymbol>>) -> Seq<Seq<BoardCell>> {
    Seq::new(
        2 * height,
        |k: int|
            {
                let j = k / 2;
                if k % 2 == 0 {
                    if j % 2 == 0 {
                        top_edge(width)
                    } else {
                        middle_edge(width)
                    }
                } else {
                    if j % 2 == 0 {
                        even_row(symbols[j], symbols[j].len())
                    } else {
                        odd_row(symbols[j], symbols[j].len())
                    }
                }
            },
    ) + seq![bottom_edge(width, height), seq![]]
}

/// Appends four frame characters `n` times.
fn push_pattern(line: &mut Vec<BoardCell>, a: char, b: char, c: char, d: char, n: usize)
    ensures
        final(line)@ == old(line)@ + repeated(frame4(a, b, c, d), n as nat),
{
    let mut i: usize = 0;
    while i < n
        invariant
            i <= n,
            line@ == old(line)@ + repeated(frame4(a, b, c, d), i as nat),
        decreases n - i,
    {
        let ghost prev = line@;
        line.push(BoardCell::Frame(a));
        line.push(BoardCell::Frame(b));
        line.push(BoardCell::Frame(c));
        line.push(BoardCell::Frame(d));
        assert(line@ =~= old(line)@ + repeated(frame4(a, b, c, d), (i + 1) as nat)) by {
            assert(repeated(frame4(a, b, c, d), (i + 1) as nat) == repeated(frame4(a, b, c, d), i as nat)
                + frame4(a, b, c, d));
            assert(line@ =~= prev + frame4(a, b, c, d));
        }
        i += 1;
    }
}

/// Appends the first `n` tiles of a row, as an odd row draws them when `odd`
/// holds and as an even row does otherwise.
fn push_tiles(line: &mut Vec<BoardCell>, symbols: &Vec<MapSymbol>, n: usize, odd: bool)
    requires
        n <= symbols@.len(),
    ensures
        final(line)@ == old(line)@ + if odd {
            odd_tiles(symbols@, n as nat)
        } else {
            even_tiles(symbols@, n as nat)
        },
{
    let mut i: usize = 0;
    while i < n
        invariant
            i <= n,
            n <= symbols@.len(),
            line@ == old(line)@ + if odd {
                odd_tiles(symbols@, i as nat)
            } else {
                even_tiles(symbols@, i as nat)
            },
        decreases n - i,
    {
        let ghost prev = line@;
        let s = symbols[i];
        if odd {
            line.push(BoardCell::Frame(' '));
            line.push(BoardCell::Frame('|'));
            line.push(BoardCell::Frame(' '));
            line.push(BoardCell::Symbol(s));
            assert(line@ =~= old(line)@ + odd_tiles(symbols@, (i + 1) as nat)) by {
                assert(line@ =~= prev + seq![
                    BoardCell::Frame(' '),
                    BoardCell::Frame('|'),
                    BoardCell::Frame(' '),
                    BoardCell::Symbol(s),
                ]);
            }
        } else {
            line.push(BoardCell::Frame('|'));
            line.push(BoardCell::Frame(' '));
            line.push(BoardCell::Symbol(s));
            line.push(BoardCell::Frame(' '));
            assert(line@ =~= old(line)@ + even_tiles(symbols@, (i + 1) as nat)) by {
                assert(line@ =~= prev + seq![
                    BoardCell::Frame('|'),
                    BoardCell::Frame(' '),
                    BoardCell::Symbol(s),
                    BoardCell::Frame(' '),
                ]);
            }
        }
        i += 1;
    }
}

/// The drawing of a `width` by `height` board whose row `j` shows the
/// symbols `symbols[j]`, one line per element; each row is drawn with its own
/// length.
pub fn board_layout(width: usize, height: usize, symbols: &Vec<Vec<MapSymbol>>) -> (r: Vec<Vec<BoardCell>>)
    requires
        height <= symbols@.len(),
    ensures
        r@.len() == 2 * height + 2,
        forall|k: int|
            0 <= k < r@.len() ==> #[trigger] r@[k]@ == board_lines(
                width as nat,
                height as nat,
                symbols@.map_values(|v: Vec<MapSymbol>| v@),
            )[k],
{
    let ghost syms = symbols@.map_values(|v: Vec<MapSymbol>| v@);
    let ghost lines = board_lines(width as nat, height as nat, syms);
    let mut out: Vec<Vec<BoardCell>> = Vec::new();
    let mut j: usize = 0;
    while j < height
        invariant
            j <= height,
            height <= symbols@.len(),
            syms == symbols@.map_values(|v: Vec<MapSymbol>| v@),
            lines == board_lines(width as nat, height as nat, syms),
            out@.len() == 2 * j,
            forall|k: int| 0 <= k < out@.len() ==> #[trigger] out@[k]@ == lines[k],
        decreases height - j,
    {
        let mut edge: Vec<BoardCell> = Vec::new();
        let mut row: Vec<BoardCell> = Vec::new();
        if j % 2 == 0 {
            edge.push(BoardCell::Frame(' '));
            push_pattern(&mut edge, '/', ' ', '\\', '_', width);
            edge.push(BoardCell::Frame('/'));
            push_tiles(&mut row, &symbols[j], symbols[j].len(), false);
            row.push(BoardCell::Frame('|'));
            assert(edge@ =~= top_edge(width as nat));
            assert(row@ =~= even_row(syms[j as int], syms[j as int].len()));
        } else {
            push_pattern(&mut edge, ' ', '\\', '_', '/', width);
            edge.push(BoardCell::Frame(' '));
            edge.push(BoardCell::Frame('\\'));
            row.push(BoardCell::Frame(' '));
            push_tiles(&mut row, &symbols[j], symbols[j].len(), true);
            row.push(BoardCell::Frame(' '));
            row.push(BoardCell::Frame('|'));
            assert(edge@ =~= middle_edge(width as nat));
            assert(row@ =~= odd_row(syms[j as int], syms[j as int].len()));
        }
        out.push(edge);
        out.push(row);
        j += 1;
    }
    let mut bottom: Vec<BoardCell> = Vec::new();
    if height % 2 == 1 {
        bottom.push(BoardCell::Frame(' '));
        bottom.push(BoardCell::Frame('\\'));
    }
    push_pattern(&mut bottom, ' ', '/', ' ', '\\', width);
    if height % 2 == 0 {
        bottom.push(BoardCell::Frame(' '));
        bottom.push(BoardCell::Frame('/'));
    }
    assert(bottom@ =~= bottom_edge(width as nat, height as nat));
    out.push(bottom);
    out.push(Vec::new());
    out
}

} // verus!
