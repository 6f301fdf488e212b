//! CPU reference embedding lookup.

use vstd::prelude::*;

verus! {

/// The row of `hidden_dim` elements for token `token_id` in an embedding table stored
/// token after token: elements `token_id * hidden_dim .. (token_id + 1) * hidden_dim`.
pub open spec fn embedding_row<T>(weights: Seq<T>, hidden_dim: int, token_id: int) -> Seq<T> {
    weights.subrange(token_id * hidden_dim, token_id * hidden_dim + hidden_dim)
}

/// Perform an embedding table lookup.
///
/// GGUF stores the embedding table in column-major order: `[hidden_dim, vocab_size]`.
/// Token `token_id` starts at offset `token_id * hidden_dim` and spans `hidden_dim` elements.
pub fn embedding_lookup<T: Copy>(weights: &[T], hidden_dim: usize, token_id: usize) -> (r: Vec<T>)
    requires
        token_id * hidden_dim + hidden_dim <= weights@.len(),
    ensures
        r@ == embedding_row(weights@, hidden_dim as int, token_id as int),
{
    assert(weights@.len() == weights.len());
    assert(0 <= token_id * hidden_dim) by (nonlinear_arith);
    let start = token_id * hidden_dim;
    let end = start + hidden_dim;
    let mut row: Vec<T> = Vec::new();
    let mut i: usize = start;
    while i < end
        invariant
            start <= i <= end,
            end <= weights@.len(),
            row@ == weights@.subrange(start as int, i as int),
        decreases end - i,
    {
        row.push(weights[i]);
        i = i + 1;
        assert(row@ =~= weights@.subrange(start as int, i as int));
    }
    row
}

} // verus!
