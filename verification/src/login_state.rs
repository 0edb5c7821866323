//! Login states: the single-use tokens that tie an authorization redirect to its
//! callback.

use crate::text::texts;
use rand::distributions::Alphanumeric;
use rand::Rng;
use vstd::prelude::*;
use vstd::seq_lib::lemma_seq_contains_after_push;

verus! {

/// The number of characters of a state token.
pub const STATE_TOKEN_LENGTH: usize = 10;

/// An ASCII letter or digit.
pub open spec fn is_alphanumeric(c: char) -> bool {
    let code = c as u32;
    (48 <= code <= 57) || (65 <= code <= 90) || (97 <= code <= 122)
}

/// A text of `STATE_TOKEN_LENGTH` ASCII letters and digits.
pub open spec fn is_state_token(token: Seq<char>) -> bool {
    &&& token.len() == STATE_TOKEN_LENGTH
    &&& forall|i: int| 0 <= i < token.len() ==> is_alphanumeric(#[trigger] token[i])
}

/// Draws `length` characters from `rand::thread_rng()` with `Rng::sample_iter` over
/// `rand::distributions::Alphanumeric`, which yields ASCII letters and digits only.
/// Which of them come is left open: two calls may differ. This is taken from the
/// source of `Alphanumeric` and is not proved here.
#[verifier::external_body]
fn random_alphanumeric(length: usize) -> (token: String)
    ensures
        token@.len() == length,
        forall|i: int| 0 <= i < token@.len() ==> is_alphanumeric(#[trigger] token@[i]),
{
    rand::thread_rng().sample_iter(Alphanumeric).take(length).map(char::from).collect()
}

/// A fresh state token.
pub fn new_state_token() -> (token: String)
    ensures
        is_state_token(token@),
{
    random_alphanumeric(STATE_TOKEN_LENGTH)
}

/// The rows of `rows` that do not hold `token`, in their order.
pub open spec fn without(rows: Seq<Seq<char>>, token: Seq<char>) -> Seq<Seq<char>>
    decreases rows.len(),
{
    if rows.len() == 0 {
        rows
    } else if rows.last() == token {
        without(rows.drop_last(), token)
    } else {
        without(rows.drop_last(), token).push(rows.last())
    }
}

/// After `token` is taken out, no row holds it, and every other token is held
/// exactly if it was held before. Where no row holds `token`, nothing changes.
pub proof fn lemma_without(rows: Seq<Seq<char>>, token: Seq<char>)
    ensures
        forall|other: Seq<char>|
            (#[trigger] without(rows, token).contains(other)) <==> (rows.contains(other) && other
                != token),
        !rows.contains(token) ==> without(rows, token) == rows,
    decreases rows.len(),
{
    if rows.len() > 0 {
        let front = rows.drop_last();
        lemma_without(front, token);
        assert(rows == front.push(rows.last()));
        assert forall|other: Seq<char>|
            (#[trigger] without(rows, token).contains(other)) <==> (rows.contains(other) && other
                != token) by {
            lemma_seq_contains_after_push(front, rows.last(), other);
            lemma_seq_contains_after_push(without(front, token), rows.last(), other);
        }
    }
}

/// The login states that wait for their callback, one row for each that was issued.
#[derive(Debug, Clone, PartialEq, Eq)]
pub struct LoginStateStore {
    rows: Vec<String>,
}

impl View for LoginStateStore {
    type V = Seq<Seq<char>>;

    closed spec fn view(&self) -> Seq<Seq<char>> {
        texts(self.rows@)
    }
}

impl LoginStateStore {
    /// The store without a row.
    pub fn new() -> (store: Self)
        ensures
            store@ == Seq::<Seq<char>>::empty(),
    {
        LoginStateStore { rows: Vec::new() }
    }

    /// The number of rows.
    pub fn len(&self) -> (rows: usize)
        ensures
            rows == self@.len(),
    {
        self.rows.len()
    }

    /// Adds a row that holds `token`.
    pub fn insert(&mut self, token: String)
        ensures
            final(self)@ == old(self)@.push(token@),
            final(self)@.contains(token@),
    {
        self.rows.push(token);
        proof {
            broadcast use lemma_seq_contains_after_push;

            assert(self@ == old(self)@.push(token@));
        }
    }

    /// Makes a fresh token, stores it and hands it out.
    pub fn issue(&mut self) -> (token: String)
        ensures
            is_state_token(token@),
            final(self)@ == old(self)@.push(token@),
            final(self)@.contains(token@),
    {
        let token = new_state_token();
        self.insert(token.clone());
        token
    }

    /// Whether a row holds `token`.
    pub fn contains(&self, token: &str) -> (held: bool)
        ensures
            held == self@.contains(token@),
    {
        let wanted = token.to_owned();
        let mut i: usize = 0;
        while i < self.rows.len()
            invariant
                i <= self.rows.len(),
                wanted@ == token@,
                forall|j: int| 0 <= j < i ==> self@[j] != token@,
            decreases self.rows.len() - i,
        {
            if self.rows[i] == wanted {
                assert(self@[i as int] == token@);
                return true;
            }
            i = i + 1;
        }
        false
    }

    /// Deletes every row that holds `token` and says whether there was one. After a
    /// call, whatever it returned, `token` is not held. The exclusive borrow makes the
    /// call indivisible: nobody else sees the store between lookup and deletion.
    pub fn consume(&mut self, token: &str) -> (existed: bool)
        ensures
            existed == old(self)@.contains(token@),
            final(self)@ == without(old(self)@, token@),
            !final(self)@.contains(token@),
    {
        let wanted = token.to_owned();
        let mut kept: Vec<String> = Vec::new();
        let mut existed = false;
        let mut i: usize = 0;
        while i < self.rows.len()
            invariant
                i <= self.rows.len(),
                self.rows == old(self).rows,
                wanted@ == token@,
                texts(kept@) == without(old(self)@.take(i as int), token@),
                existed == old(self)@.take(i as int).contains(token@),
            decreases self.rows.len() - i,
        {
            proof {
                broadcast use lemma_seq_contains_after_push;

                assert(old(self)@.take(i + 1) == old(self)@.take(i as int).push(
                    self.rows[i as int]@,
                ));
                assert(old(self)@.take(i + 1).drop_last() == old(self)@.take(i as int));
            }
            if self.rows[i] == wanted {
                existed = true;
            } else {
                kept.push(self.rows[i].clone());
            }
            i = i + 1;
        }
        proof {
            assert(old(self)@.take(i as int) == old(self)@);
            lemma_without(old(self)@, token@);
        }
        self.rows = kept;
        existed
    }
}

/// One operation on a store of login states.
pub enum StoreOp {
    /// A row that holds this token is added.
    Issue(Seq<char>),
    /// The rows that hold this token are deleted.
    Consume(Seq<char>),
}

/// The rows after `op`.
pub open spec fn after_op(rows: Seq<Seq<char>>, op: StoreOp) -> Seq<Seq<char>> {
    match op {
        StoreOp::Issue(token) => rows.push(token),
        StoreOp::Consume(token) => without(rows, token),
    }
}

/// What the consumptions of `token` among `ops` return, in their order, when `ops`
/// are carried out one after the other on a store that holds `rows`.
pub open spec fn consumptions(rows: Seq<Seq<char>>, ops: Seq<StoreOp>, token: Seq<char>) -> Seq<
    bool,
>
    decreases ops.len(),
{
    if ops.len() == 0 {
        Seq::empty()
    } else {
        let rest = consumptions(after_op(rows, ops[0]), ops.drop_first(), token);
        if ops[0] == StoreOp::Consume(token) {
            seq![rows.contains(token)] + rest
        } else {
            rest
        }
    }
}

/// No operation of `ops` issues `token`.
pub open spec fn never_issues(ops: Seq<StoreOp>, token: Seq<char>) -> bool {
    forall|i: int| 0 <= i < ops.len() ==> #[trigger] ops[i] != StoreOp::Issue(token)
}

proof fn lemma_after_op_keeps_others(rows: Seq<Seq<char>>, op: StoreOp, token: Seq<char>)
    requires
        op != StoreOp::Issue(token),
        op != StoreOp::Consume(token),
    ensures
        after_op(rows, op).contains(token) <==> rows.contains(token),
{
    broadcast use lemma_seq_contains_after_push;

    match op {
        StoreOp::Issue(_) => {},
        StoreOp::Consume(other) => {
            lemma_without(rows, other);
        },
    }
}

/// A token that is not held, and is not issued again, is never consumed.
pub proof fn lemma_absent_token_is_never_consumed(
    rows: Seq<Seq<char>>,
    ops: Seq<StoreOp>,
    token: Seq<char>,
)
    requires
        !rows.contains(token),
        never_issues(ops, token),
    ensures
        forall|i: int|
            0 <= i < consumptions(rows, ops, token).len() ==> !(#[trigger] consumptions(
                rows,
                ops,
                token,
            )[i]),
    decreases ops.len(),
{
    if ops.len() > 0 {
        let next = after_op(rows, ops[0]);
        let tail = ops.drop_first();
        let rest = consumptions(next, tail, token);
        if ops[0] == StoreOp::Consume(token) {
            lemma_without(rows, token);
        } else {
            lemma_after_op_keeps_others(rows, ops[0], token);
        }
        lemma_absent_token_is_never_consumed(next, tail, token);
    }
}

/// A token is consumed exactly once. On a store that holds `token`, in whatever order
/// consumptions of it, by any number of callers, and operations on other tokens are
/// carried out: the first consumption of `token` returns true and every later one
/// returns false, as long as the same token is not issued anew.
pub proof fn law_token_is_consumed_exactly_once(
    rows: Seq<Seq<char>>,
    ops: Seq<StoreOp>,
    token: Seq<char>,
)
    requires
        rows.contains(token),
        never_issues(ops, token),
    ensures
        forall|i: int|
            0 <= i < consumptions(rows, ops, token).len() ==> (#[trigger] consumptions(
                rows,
                ops,
                token,
            )[i] <==> i == 0),
    decreases ops.len(),
{
    if ops.len() > 0 {
        let next = after_op(rows, ops[0]);
        let tail = ops.drop_first();
        let rest = consumptions(next, tail, token);
        if ops[0] == StoreOp::Consume(token) {
            lemma_without(rows, token);
            lemma_absent_token_is_never_consumed(next, tail, token);
        } else {
            lemma_after_op_keeps_others(rows, ops[0], token);
            law_token_is_consumed_exactly_once(next, tail, token);
        }
    }
}

} // verus!
