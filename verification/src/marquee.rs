//! The marquee text of a selected row: a title too wide for its column
//! scrolls cyclically, three spaces separating the end from the start.

use vstd::prelude::*;

verus! {

/// How long one full scroll cycle is: the text and its three-space
/// separator.
pub open spec fn cycle_len(text: Seq<char>) -> int {
    text.len() as int + 3
}

/// The character at a cycle position: the text's own, or a separator
/// space past its end.
pub open spec fn cycle_char(text: Seq<char>, q: int) -> char {
    if q < text.len() {
        text[q]
    } else {
        ' '
    }
}

/// What the marquee shows: the text itself while it fits its column, is
/// not selected, or the scroll delay of five ticks has not passed; after
/// that, a window of `width` characters into the cycled text, advanced
/// one position per tick.
pub open spec fn marquee_spec(text: Seq<char>, width: nat, tick: nat, is_selected: bool) -> Seq<
    char,
> {
    if text.len() <= width || !is_selected || tick <= 5 {
        text
    } else {
        let cycle = cycle_len(text);
        let start = ((tick - 5) as int) % cycle;
        Seq::new(
            width,
            |k: int|
                {
                    let p = start + k;
                    cycle_char(text, if p < cycle { p } else { p - cycle })
                },
        )
    }
}

/// Render one row's title for its column, exactly as `marquee_spec` says.
pub fn marquee(text: &str, width: usize, tick: usize, is_selected: bool) -> (r: String)
    requires
        text@.len() + 3 <= usize::MAX,
    ensures
        r@ == marquee_spec(text@, width as nat, tick as nat, is_selected),
{
    proof {
        reveal_strlit(" ");
    }
    let count = text.unicode_len();
    if count <= width || !is_selected {
        return text.to_owned();
    }
    if tick <= 5 {
        return text.to_owned();
    }
    let cycle = count + 3;
    let start = (tick - 5) % cycle;
    let mut out = String::new();
    let mut k: usize = 0;
    let mut idx: usize = start;
    while k < width
        invariant
            count == text@.len(),
            width < count,
            5 < tick,
            cycle == count + 3,
            start == ((tick - 5) as int) % (cycle as int),
            start < cycle,
            k <= width,
            idx as int == (if start + k < cycle {
                start + k as int
            } else {
                start + k - cycle
            }),
            idx < cycle,
            out@ =~= Seq::new(
                k as nat,
                |j: int|
                    {
                        let p = start + j;
                        cycle_char(text@, if p < cycle { p } else { p - cycle })
                    },
            ),
        decreases width - k,
    {
        let ghost prev = out@;
        let ghost shown = (|j: int|
            {
                let p = start + j;
                cycle_char(text@, if p < cycle { p } else { p - cycle })
            });
        if idx < count {
            let piece = text.substring_char(idx, idx + 1);
            out.append(piece);
            proof {
                assert(out@ =~= prev.push(text@[idx as int]));
            }
        } else {
            out.append(" ");
            proof {
                reveal_strlit(" ");
                assert(out@ =~= prev.push(' '));
            }
        }
        proof {
            assert(shown(k as int) == cycle_char(text@, idx as int));
            assert(out@ =~= Seq::new(k as nat + 1, shown));
        }
        k = k + 1;
        idx = idx + 1;
        if idx == cycle {
            idx = 0;
        }
    }
    assert(out@ =~= marquee_spec(text@, width as nat, tick as nat, is_selected));
    out
}

} // verus!
