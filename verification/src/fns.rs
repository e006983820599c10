//! Helper functions for CSS functional notation.

use vstd::prelude::*;

verus! {

/// The `rgb()` css function: `rgb({r}, {g}, {b})`.
pub fn rgb(r: &str, g: &str, b: &str) -> (s: String)
    ensures
        s@ == "rgb("@ + r@ + ", "@ + g@ + ", "@ + b@ + ")"@,
{
    let mut s = "rgb(".to_owned();
    s.append(r);
    s.append(", ");
    s.append(g);
    s.append(", ");
    s.append(b);
    s.append(")");
    proof {
        assert(s@ =~= "rgb("@ + r@ + ", "@ + g@ + ", "@ + b@ + ")"@);
    }
    s
}

} // verus!
