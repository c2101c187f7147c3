//! The take-once tokens that serialise the use of the host's listing and invocation slots.
//!
//! The host has room for one component listing, one method listing and one method call at a
//! time. For each of the three there is one token in the whole process. Whoever holds it may
//! start an operation of that kind, and as the operation borrows the token mutably, no second
//! one can be started while the first is alive.

use vstd::prelude::*;

verus! {

/// The three kinds of token.
#[derive(Clone, Copy, Debug, PartialEq, Eq, Hash, Structural)]
pub enum TokenKind {
    /// The token under which components are listed.
    Lister,
    /// The token under which methods are listed.
    MethodLister,
    /// The token under which methods are invoked.
    Invoker,
}

/// The record of which tokens have been handed out. A process keeps exactly one.
#[derive(Debug)]
pub struct Tokens {
    lister: bool,
    method_lister: bool,
    invoker: bool,
}

impl View for Tokens {
    type V = Set<TokenKind>;

    /// The kinds whose token has been taken.
    closed spec fn view(&self) -> Set<TokenKind> {
        Set::new(
            |kind: TokenKind|
                match kind {
                    TokenKind::Lister => self.lister,
                    TokenKind::MethodLister => self.method_lister,
                    TokenKind::Invoker => self.invoker,
                },
        )
    }
}

/// One attempt to take the token of `kind` when those in `taken` are gone: whether it succeeds,
/// and which are gone afterwards. A token never comes back.
pub open spec fn take_step(taken: Set<TokenKind>, kind: TokenKind) -> (bool, Set<TokenKind>) {
    (!taken.contains(kind), taken.insert(kind))
}

/// The outcomes of a run of attempts, one for each entry of `kinds`, in order.
pub open spec fn take_outcomes(taken: Set<TokenKind>, kinds: Seq<TokenKind>) -> Seq<bool>
    decreases kinds.len(),
{
    if kinds.len() == 0 {
        Seq::empty()
    } else {
        seq![take_step(taken, kinds[0]).0] + take_outcomes(
            take_step(taken, kinds[0]).1,
            kinds.drop_first(),
        )
    }
}

/// In any run of attempts, an attempt succeeds exactly if the token of its kind was still there
/// at the start and no earlier attempt of the run asked for the same kind.
pub proof fn lemma_take_outcomes(taken: Set<TokenKind>, kinds: Seq<TokenKind>)
    ensures
        take_outcomes(taken, kinds).len() == kinds.len(),
        forall|i: int|
            0 <= i < kinds.len() ==> (#[trigger] take_outcomes(taken, kinds)[i] <==> (
            !taken.contains(kinds[i]) && forall|j: int| 0 <= j < i ==> kinds[j] != kinds[i])),
    decreases kinds.len(),
{
    if kinds.len() > 0 {
        let rest = kinds.drop_first();
        let next = take_step(taken, kinds[0]).1;
        lemma_take_outcomes(next, rest);
        let outcomes = take_outcomes(taken, kinds);
        let tail = take_outcomes(next, rest);
        assert forall|i: int| 0 <= i < kinds.len() implies (#[trigger] outcomes[i] <==> (
        !taken.contains(kinds[i]) && forall|j: int| 0 <= j < i ==> kinds[j] != kinds[i])) by {
            if i > 0 {
                assert(outcomes[i] == tail[i - 1]);
                assert(kinds[i] == rest[i - 1]);
                if tail[i - 1] {
                    assert forall|j: int| 0 <= j < i implies kinds[j] != kinds[i] by {
                        if j > 0 {
                            assert(rest[j - 1] == kinds[j]);
                        }
                    }
                } else if !next.contains(rest[i - 1]) {
                    let j = choose|j: int| 0 <= j < i - 1 && #[trigger] rest[j] == rest[i - 1];
                    assert(kinds[j + 1] == rest[j]);
                }
            }
        }
    }
}

/// A run of `attempts` attempts that all ask for the token of `kind`.
pub open spec fn same_kind(kind: TokenKind, attempts: nat) -> Seq<TokenKind> {
    Seq::new(attempts, |i: int| kind)
}

/// Of all the attempts to take one kind of token in the life of a process, the first succeeds
/// and every later one fails.
pub proof fn lemma_take_once(kind: TokenKind, attempts: nat)
    ensures
        take_outcomes(Set::empty(), same_kind(kind, attempts)).len() == attempts,
        forall|i: int|
            0 <= i < attempts ==> (#[trigger] take_outcomes(
                Set::empty(),
                same_kind(kind, attempts),
            )[i] <==> i == 0),
{
    let kinds = same_kind(kind, attempts);
    lemma_take_outcomes(Set::empty(), kinds);
    assert forall|i: int| 0 <= i < attempts implies (#[trigger] take_outcomes(
        Set::empty(),
        kinds,
    )[i] <==> i == 0) by {
        if i > 0 {
            assert(kinds[0] == kinds[i]);
        }
    }
}

impl Tokens {
    /// The record of a process that has handed out no token yet.
    pub fn new() -> (tokens: Tokens)
        ensures
            tokens@ == Set::<TokenKind>::empty(),
    {
        let tokens = Tokens { lister: false, method_lister: false, invoker: false };
        assert(tokens@ =~= Set::<TokenKind>::empty());
        tokens
    }

    /// Whether the token of `kind` has been taken.
    pub fn is_taken(&self, kind: TokenKind) -> (taken: bool)
        ensures
            taken == self@.contains(kind),
    {
        match kind {
            TokenKind::Lister => self.lister,
            TokenKind::MethodLister => self.method_lister,
            TokenKind::Invoker => self.invoker,
        }
    }

    /// Takes the token of `kind`: `true` the first time that it is asked for, `false` ever
    /// after.
    pub fn claim(&mut self, kind: TokenKind) -> (fresh: bool)
        ensures
            (fresh, final(self)@) == take_step(old(self)@, kind),
    {
        let fresh = !self.is_taken(kind);
        match kind {
            TokenKind::Lister => {
                self.lister = true;
            },
            TokenKind::MethodLister => {
                self.method_lister = true;
            },
            TokenKind::Invoker => {
                self.invoker = true;
            },
        }
        assert(self@ =~= old(self)@.insert(kind));
        fresh
    }
}

} // verus!
