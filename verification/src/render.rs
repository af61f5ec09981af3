//! Rendering the framebuffer as text: 32 lines of 64 cells, `#` for a lit
//! cell and a space for a dark one, each line ended by `\r\n`. Putting the
//! text on a terminal is the presentation layer's concern.

use vstd::prelude::*;

verus! {

/// The character at offset `k` of the rendered frame: each of the 32 rows
/// contributes 64 cell characters, a carriage return and a newline.
pub open spec fn frame_char(g: Seq<u8>, k: int) -> char {
    let row = k / 66;
    let col = k % 66;
    if col < 64 {
        if g[row * 64 + col] != 0 {
            '#'
        } else {
            ' '
        }
    } else if col == 64 {
        '\r'
    } else {
        '\n'
    }
}

/// The whole rendered frame: 32 rows of 66 characters.
pub open spec fn frame_text(g: Seq<u8>) -> Seq<char> {
    Seq::new(2112, |k: int| frame_char(g, k))
}

/// Render the framebuffer as the text the terminal shows.
#[verifier::loop_isolation(false)]
pub fn render_frame(gfx: &[u8; 2048]) -> (r: String)
    ensures
        r@ == frame_text(gfx@),
{
    proof {
        reveal_strlit("#");
        reveal_strlit(" ");
        reveal_strlit("\r");
        reveal_strlit("\n");
    }
    let mut out = String::new();
    let mut k: usize = 0;
    while k < 2112
        invariant
            k <= 2112,
            out@.len() == k,
            forall|j: int| 0 <= j < k ==> #[trigger] out@[j] == frame_char(gfx@, j),
        decreases 2112 - k,
    {
        let row = k / 66;
        let col = k % 66;
        if col < 64 {
            if gfx[row * 64 + col] != 0 {
                out.append("#");
            } else {
                out.append(" ");
            }
        } else if col == 64 {
            out.append("\r");
        } else {
            out.append("\n");
        }
        k = k + 1;
    }
    proof {
        assert(out@ =~= frame_text(gfx@));
    }
    out
}

} // verus!
