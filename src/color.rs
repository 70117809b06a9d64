use vstd::prelude::*;

verus! {

/// Colour of a point whose orbit never escaped within the iteration budget.
pub open spec fn in_set_color() -> (u8, u8, u8) {
    (0u8, 0u8, 0u8)
}

/// `c` is the colour of count `iter` under budget `max_iter`: black for a
/// count that used the whole budget, else what `gradient` gives.
pub open spec fn is_color_of<G: Fn(u32, u32) -> (u8, u8, u8)>(
    iter: u32,
    max_iter: u32,
    gradient: G,
    c: (u8, u8, u8),
) -> bool {
    if iter == max_iter {
        c == in_set_color()
    } else {
        gradient.ensures((iter, max_iter), c)
    }
}

/// Colorizer: points that used the whole budget are painted black, every
/// other count is handed to `gradient` together with the budget.
pub fn get_color<G: Fn(u32, u32) -> (u8, u8, u8)>(iter: u32, max_iter: u32, gradient: G) -> (c: (
    u8,
    u8,
    u8,
))
    requires
        iter != max_iter ==> gradient.requires((iter, max_iter)),
    ensures
        iter == max_iter ==> c == in_set_color(),
        is_color_of(iter, max_iter, gradient, c),
{
    if iter == max_iter {
        (0, 0, 0)
    } else {
        gradient(iter, max_iter)
    }
}

/// The colour of a count is determined by the count and the budget: with a
/// gradient that gives one colour per input, two colours of the same count
/// are the same.
pub proof fn lemma_color_deterministic<G: Fn(u32, u32) -> (u8, u8, u8)>(
    iter: u32,
    max_iter: u32,
    gradient: G,
    c1: (u8, u8, u8),
    c2: (u8, u8, u8),
)
    requires
        forall|i: u32, m: u32, a: (u8, u8, u8), b: (u8, u8, u8)|
            #[trigger] gradient.ensures((i, m), a) && #[trigger] gradient.ensures((i, m), b)
                ==> a == b,
        is_color_of(iter, max_iter, gradient, c1),
        is_color_of(iter, max_iter, gradient, c2),
    ensures
        c1 == c2,
{
}

} // verus!
