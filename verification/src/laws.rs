//! Laws of the builder: every sequence of configuration calls appends its
//! tokens in call order, and each shorthand call appends exactly the token
//! the corresponding plain `tag` call would.

use vstd::prelude::*;
use crate::client::{
    BuilderModel, blacklist_token, init_model, random_token, rating_token, sort_token, with_tag,
};
use crate::model::{DanbooruRating, DanbooruSort};
use crate::text::join_spaced;

verus! {

/// One configuration call, at the level of the builder model.
pub enum ConfigOp {
    Tag(Seq<char>),
    Rating(DanbooruRating),
    Sort(DanbooruSort),
    Blacklist(Seq<char>),
    Random(bool),
}

/// The tokens one configuration call appends to the tag list.
pub open spec fn op_tokens(op: ConfigOp) -> Seq<Seq<char>> {
    match op {
        ConfigOp::Tag(t) => seq![t],
        ConfigOp::Rating(r) => seq![rating_token(r)],
        ConfigOp::Sort(s) => seq![sort_token(s)],
        ConfigOp::Blacklist(t) => seq![blacklist_token(t)],
        ConfigOp::Random(b) => if b {
            seq![random_token()]
        } else {
            Seq::empty()
        },
    }
}

/// The builder model after one configuration call, exactly as the
/// corresponding executable method ensures it.
pub open spec fn apply_op(m: BuilderModel, op: ConfigOp) -> BuilderModel {
    match op {
        ConfigOp::Tag(t) => with_tag(m, t),
        ConfigOp::Rating(r) => with_tag(m, rating_token(r)),
        ConfigOp::Sort(s) => with_tag(m, sort_token(s)),
        ConfigOp::Blacklist(t) => with_tag(m, blacklist_token(t)),
        ConfigOp::Random(b) => if b {
            with_tag(m, random_token())
        } else {
            m
        },
    }
}

/// The builder model after a whole sequence of configuration calls, made in
/// order.
pub open spec fn apply_ops(m: BuilderModel, ops: Seq<ConfigOp>) -> BuilderModel
    decreases ops.len(),
{
    if ops.len() == 0 {
        m
    } else {
        apply_ops(apply_op(m, ops.first()), ops.drop_first())
    }
}

/// The tokens a whole sequence of configuration calls appends, in call order.
pub open spec fn ops_tokens(ops: Seq<ConfigOp>) -> Seq<Seq<char>>
    decreases ops.len(),
{
    if ops.len() == 0 {
        Seq::empty()
    } else {
        op_tokens(ops.first()) + ops_tokens(ops.drop_first())
    }
}

/// Every sequence of configuration calls leaves the tag list equal to the
/// starting list followed by each call's tokens, in the exact order the calls
/// were made: nothing is sorted, deduplicated or dropped. No configuration
/// call changes the limit or the credentials.
pub proof fn lemma_ops_append_in_order(m: BuilderModel, ops: Seq<ConfigOp>)
    ensures
        apply_ops(m, ops).tags == m.tags + ops_tokens(ops),
        apply_ops(m, ops).limit == m.limit,
        apply_ops(m, ops).key == m.key,
        apply_ops(m, ops).user == m.user,
    decreases ops.len(),
{
    if ops.len() == 0 {
        assert(apply_ops(m, ops).tags =~= m.tags + ops_tokens(ops));
    } else {
        let m1 = apply_op(m, ops.first());
        lemma_ops_append_in_order(m1, ops.drop_first());
        assert(m1.tags =~= m.tags + op_tokens(ops.first()));
        assert(m.tags + op_tokens(ops.first()) + ops_tokens(ops.drop_first()) =~= m.tags
            + ops_tokens(ops));
    }
}

/// From a fresh builder, the rendered query string is the space-joined
/// concatenation of exactly the tokens the configuration calls produced, in
/// call order.
pub proof fn lemma_render_from_fresh(ops: Seq<ConfigOp>)
    ensures
        join_spaced(apply_ops(init_model(), ops).tags) == join_spaced(ops_tokens(ops)),
{
    lemma_ops_append_in_order(init_model(), ops);
    assert(init_model().tags + ops_tokens(ops) =~= ops_tokens(ops));
}

/// Adding a rating filter is the same as adding the plain tag `rating:`
/// followed by the rating's name: both append the identical token.
pub proof fn lemma_rating_is_tag(m: BuilderModel, r: DanbooruRating, t: Seq<char>)
    requires
        t == "rating:"@ + r.name_seq(),
    ensures
        apply_op(m, ConfigOp::Rating(r)) == apply_op(m, ConfigOp::Tag(t)),
{
}

/// Adding a sort directive is the same as adding the plain tag `order:`
/// followed by the sort's name: both append the identical token.
pub proof fn lemma_sort_is_tag(m: BuilderModel, s: DanbooruSort, t: Seq<char>)
    requires
        t == "order:"@ + s.name_seq(),
    ensures
        apply_op(m, ConfigOp::Sort(s)) == apply_op(m, ConfigOp::Tag(t)),
{
}

/// Blacklisting a tag is the same as adding the plain tag `-` followed by
/// the tag itself: the appended token is the tag prefixed with `-`.
pub proof fn lemma_blacklist_is_negated_tag(m: BuilderModel, t: Seq<char>)
    ensures
        apply_op(m, ConfigOp::Blacklist(t)) == apply_op(m, ConfigOp::Tag("-"@ + t)),
{
}

/// Enabling random ordering twice appends the `order:random` token twice —
/// the call is not idempotent — while disabling it never appends anything.
pub proof fn lemma_random_twice_appends_twice(m: BuilderModel)
    ensures
        apply_op(apply_op(m, ConfigOp::Random(true)), ConfigOp::Random(true)).tags == m.tags + seq![
            random_token(),
            random_token(),
        ],
        apply_op(m, ConfigOp::Random(false)) == m,
{
    assert(m.tags.push(random_token()).push(random_token()) =~= m.tags + seq![
        random_token(),
        random_token(),
    ]);
}

} // verus!
