//! The session store: which bearer token stands for which user.

use crate::selection::{
    lemma_member_is_selected, lemma_select_empty, lemma_select_keeps_keys_distinct,
    lemma_select_none, lemma_select_step, lemma_selected_is_member, negate,
};
use vstd::prelude::*;

verus! {

/// An opaque bearer credential. The serial number makes it differ from
/// every token that is bound when it is minted; the secret keeps it from
/// being guessed.
#[derive(Debug, Clone, Copy, PartialEq, Eq)]
pub struct SessionToken {
    pub serial: u64,
    pub secret: [u8; 16],
}

/// A token together with the user it stands for.
#[derive(Debug, Clone, Copy)]
pub struct Binding {
    pub token: SessionToken,
    pub user_id: i32,
}

/// Holds of the binding of the given token.
pub open spec fn binding_of(token: SessionToken) -> spec_fn(Binding) -> bool {
    |binding: Binding| binding.token == token
}

/// The content of the session store: the bindings in the order in which they
/// were made, and the serial number of the next token.
pub struct SessionState {
    pub bindings: Seq<Binding>,
    pub next_serial: int,
}

impl SessionState {
    /// The store in which no token was ever minted.
    pub open spec fn empty() -> SessionState {
        SessionState { bindings: Seq::empty(), next_serial: 1 }
    }

    /// Whether the token stands for a user.
    pub open spec fn is_bound(self, token: SessionToken) -> bool {
        exists|i: int| 0 <= i < self.bindings.len() && (#[trigger] self.bindings[i]).token == token
    }

    /// Whether the token stands for this user.
    pub open spec fn resolves(self, token: SessionToken, user_id: i32) -> bool {
        exists|i: int|
            0 <= i < self.bindings.len() && (#[trigger] self.bindings[i]).token == token
                && self.bindings[i].user_id == user_id
    }

    /// What a request that carries `token` is authenticated as.
    pub open spec fn authenticates(self, token: Option<SessionToken>, user_id: i32) -> bool {
        token matches Some(token) && self.resolves(token, user_id)
    }

    /// Whether a request that carries `token` is authenticated at all.
    pub open spec fn is_authenticated(self, token: Option<SessionToken>) -> bool {
        token matches Some(token) && self.is_bound(token)
    }

    /// The user that a request that carries `token` acts for, if any.
    pub open spec fn user_behind(self, token: Option<SessionToken>) -> Option<i32> {
        if self.is_authenticated(token) {
            Some(choose|user_id: i32| self.authenticates(token, user_id))
        } else {
            None
        }
    }

    /// Serial numbers are positive and below the counter, and no two
    /// bindings share one.
    pub open spec fn wf(self) -> bool {
        &&& 1 <= self.next_serial <= u64::MAX + 1
        &&& forall|i: int|
            0 <= i < self.bindings.len() ==> 0 < (#[trigger] self.bindings[i]).token.serial
                < self.next_serial
        &&& forall|i: int, j: int|
            0 <= i < j < self.bindings.len() ==> (#[trigger] self.bindings[i]).token.serial != (
            #[trigger] self.bindings[j]).token.serial
    }

    /// Whether one more token can be minted.
    pub open spec fn can_mint(self) -> bool {
        self.next_serial <= u64::MAX
    }

    /// The token that is minted next with this secret.
    pub open spec fn minted(self, secret: [u8; 16]) -> SessionToken {
        SessionToken { serial: self.next_serial as u64, secret }
    }

    /// The store after a token with this secret was minted for the user.
    pub open spec fn with_binding(self, secret: [u8; 16], user_id: i32) -> SessionState {
        SessionState {
            bindings: self.bindings.push(Binding { token: self.minted(secret), user_id }),
            next_serial: self.next_serial + 1,
        }
    }

    /// The store after the token was invalidated.
    pub open spec fn without(self, token: SessionToken) -> SessionState {
        SessionState { bindings: self.bindings.filter(negate(binding_of(token))), ..self }
    }

    /// The store that has room for one more token: the store itself, or,
    /// once the serial numbers are used up, the empty store, in which every
    /// session has ended and the numbers start over.
    pub open spec fn restarted(self) -> SessionState {
        if self.can_mint() {
            self
        } else {
            SessionState::empty()
        }
    }

    /// The store in which the next token does not bear the serial number of
    /// `avoid`: where it would, that number is passed over.
    pub open spec fn skipping(self, avoid: Option<SessionToken>) -> SessionState {
        if avoid matches Some(token) && token.serial == self.next_serial {
            (SessionState { next_serial: self.next_serial + 1, ..self }).restarted()
        } else {
            self
        }
    }

    /// The store from which a session is regenerated: the token that the
    /// request carried is invalidated, and there is room for a token that
    /// differs from it.
    pub open spec fn renewed(self, carried: Option<SessionToken>) -> SessionState {
        self.without_any(carried).restarted().skipping(carried)
    }

    /// The store after a session was regenerated for the user: the token
    /// that the request carried is invalidated and a fresh one with this
    /// secret is bound to the user.
    pub open spec fn regenerated(
        self,
        carried: Option<SessionToken>,
        secret: [u8; 16],
        user_id: i32,
    ) -> SessionState {
        self.renewed(carried).with_binding(secret, user_id)
    }

    /// The store after the token of a request, if it carried one, was
    /// invalidated.
    pub open spec fn without_any(self, token: Option<SessionToken>) -> SessionState {
        match token {
            Some(token) => self.without(token),
            None => self,
        }
    }
}

/// A token stands for at most one user.
pub proof fn lemma_resolves_one_user(state: SessionState, token: SessionToken, a: i32, b: i32)
    requires
        state.wf(),
        state.resolves(token, a),
        state.resolves(token, b),
    ensures
        a == b,
{
    let i = choose|i: int|
        0 <= i < state.bindings.len() && (#[trigger] state.bindings[i]).token == token
            && state.bindings[i].user_id == a;
    let j = choose|j: int|
        0 <= j < state.bindings.len() && (#[trigger] state.bindings[j]).token == token
            && state.bindings[j].user_id == b;
    if i < j {
        assert(state.bindings[i].token.serial != state.bindings[j].token.serial);
    } else if j < i {
        assert(state.bindings[j].token.serial != state.bindings[i].token.serial);
    }
}

/// A freshly minted token was not bound before, stands for its user
/// afterwards, and every other token stands for what it stood for.
pub proof fn lemma_with_binding(state: SessionState, secret: [u8; 16], user_id: i32)
    requires
        state.wf(),
        state.can_mint(),
    ensures
        state.with_binding(secret, user_id).wf(),
        !state.is_bound(state.minted(secret)),
        state.with_binding(secret, user_id).resolves(state.minted(secret), user_id),
        forall|other: SessionToken, user: i32|
            other != state.minted(secret) ==> (state.with_binding(secret, user_id).resolves(
                other,
                user,
            ) <==> state.resolves(other, user)),
        forall|other: SessionToken|
            other != state.minted(secret) ==> (state.with_binding(secret, user_id).is_bound(other)
                <==> state.is_bound(other)),
{
    let after = state.with_binding(secret, user_id);
    let token = state.minted(secret);
    assert(after.bindings[state.bindings.len() as int].token == token);
    assert forall|other: SessionToken| other != token implies (after.is_bound(other)
        <==> state.is_bound(other)) by {
        if state.is_bound(other) {
            let i = choose|i: int|
                0 <= i < state.bindings.len() && (#[trigger] state.bindings[i]).token == other;
            assert(after.bindings[i].token == other);
        }
        if after.is_bound(other) {
            let i = choose|i: int|
                0 <= i < after.bindings.len() && (#[trigger] after.bindings[i]).token == other;
            assert(state.bindings[i].token == other);
        }
    }
    assert forall|other: SessionToken, user: i32| other != token implies (after.resolves(
        other,
        user,
    ) <==> state.resolves(other, user)) by {
        if state.resolves(other, user) {
            let i = choose|i: int|
                0 <= i < state.bindings.len() && (#[trigger] state.bindings[i]).token == other
                    && state.bindings[i].user_id == user;
            assert(after.bindings[i].token == other);
        }
        if after.resolves(other, user) {
            let i = choose|i: int|
                0 <= i < after.bindings.len() && (#[trigger] after.bindings[i]).token == other
                    && after.bindings[i].user_id == user;
            assert(state.bindings[i].token == other);
        }
    }
}

/// An invalidated token is bound no more, and every other token stands for
/// what it stood for.
pub proof fn lemma_without(state: SessionState, token: SessionToken)
    requires
        state.wf(),
    ensures
        state.without(token).wf(),
        !state.without(token).is_bound(token),
        !state.is_bound(token) ==> state.without(token) == state,
        forall|other: SessionToken, user: i32|
            other != token ==> (state.without(token).resolves(other, user) <==> state.resolves(
                other,
                user,
            )),
{
    let after = state.without(token);
    let keep = negate(binding_of(token));
    let before = state.bindings;
    lemma_select_keeps_keys_distinct(before, keep, |binding: Binding| binding.token.serial);
    assert forall|i: int| 0 <= i < after.bindings.len() implies 0 < (
    #[trigger] after.bindings[i]).token.serial < after.next_serial && after.bindings[i].token
        != token by {
        lemma_selected_is_member(before, keep, i);
        let k = choose|k: int| 0 <= k < before.len() && before[k] == after.bindings[i];
        assert(0 < before[k].token.serial);
    }
    if !state.is_bound(token) {
        lemma_select_none(before, binding_of(token));
    }
    assert forall|other: SessionToken, user: i32| other != token implies (after.resolves(
        other,
        user,
    ) <==> state.resolves(other, user)) by {
        if state.resolves(other, user) {
            let i = choose|i: int|
                0 <= i < before.len() && (#[trigger] before[i]).token == other
                    && before[i].user_id == user;
            assert(keep(before[i]));
            lemma_member_is_selected(before, keep, i);
            let m = choose|m: int| 0 <= m < after.bindings.len() && after.bindings[m] == before[i];
            assert(after.bindings[m].token == other);
        }
        if after.resolves(other, user) {
            let i = choose|i: int|
                0 <= i < after.bindings.len() && (#[trigger] after.bindings[i]).token == other
                    && after.bindings[i].user_id == user;
            lemma_selected_is_member(before, keep, i);
            let k = choose|k: int| 0 <= k < before.len() && before[k] == after.bindings[i];
            assert(before[k].token == other);
        }
    }
}

/// A session is regenerated from a store that keeps its rules and has room
/// for the fresh token, which is not bound there and differs from the token
/// that the request carried; that token is bound no more. As long as two
/// serial numbers are left, every other token stands for what it stood for,
/// and the fresh token was never bound.
pub proof fn lemma_renewed(state: SessionState, carried: Option<SessionToken>, secret: [u8; 16])
    requires
        state.wf(),
    ensures
        state.renewed(carried).wf(),
        state.renewed(carried).can_mint(),
        !state.renewed(carried).is_bound(state.renewed(carried).minted(secret)),
        carried matches Some(token) ==> !state.renewed(carried).is_bound(token) && token
            != state.renewed(carried).minted(secret),
        state.next_serial < u64::MAX ==> !state.is_bound(state.renewed(carried).minted(secret)),
        state.can_mint() && !(carried matches Some(token) && !state.is_bound(token))
            ==> state.renewed(carried) == state.without_any(carried),
        state.next_serial < u64::MAX ==> forall|other: SessionToken, user: i32|
            Some(other) != carried ==> (state.renewed(carried).resolves(other, user)
                <==> state.resolves(other, user)),
{
    let cleared = state.without_any(carried);
    if let Some(token) = carried {
        lemma_without(state, token);
    }
    let roomy = cleared.restarted();
    let renewed = state.renewed(carried);
    assert(roomy.wf() && roomy.can_mint());
    assert(renewed.wf() && renewed.can_mint());
    if let Some(token) = carried {
        assert(!roomy.is_bound(token));
        assert(!renewed.is_bound(token));
        if state.is_bound(token) {
            let i = choose|i: int|
                0 <= i < state.bindings.len() && (#[trigger] state.bindings[i]).token == token;
            assert(token.serial < state.next_serial);
        }
    }
    if state.next_serial < u64::MAX {
        assert(roomy == cleared);
        assert(renewed.bindings == cleared.bindings);
        assert(renewed.next_serial >= state.next_serial);
        assert forall|other: SessionToken, user: i32| Some(other) != carried implies (
        renewed.resolves(other, user) <==> state.resolves(other, user)) by {
            assert(renewed.resolves(other, user) <==> cleared.resolves(other, user));
        }
    }
}

/// Whether two tokens are the same, serial number and secret.
pub fn same_token(a: &SessionToken, b: &SessionToken) -> (same: bool)
    ensures
        same == (*a == *b),
{
    if a.serial != b.serial {
        return false;
    }
    let mut k: usize = 0;
    while k < 16
        invariant
            k <= 16,
            a.serial == b.serial,
            forall|j: int| 0 <= j < k ==> a.secret@[j] == b.secret@[j],
        decreases 16 - k,
    {
        if a.secret[k] != b.secret[k] {
            return false;
        }
        k += 1;
    }
    proof {
        assert(a.secret@ =~= b.secret@);
        assert(a.secret == b.secret);
    }
    true
}

/// The session store. It is handed to the operations that need it, so that
/// a test can hand in one of its own.
pub struct SessionStore {
    bindings: Vec<Binding>,
    issued: u64,
}

impl View for SessionStore {
    type V = SessionState;

    closed spec fn view(&self) -> SessionState {
        SessionState { bindings: self.bindings@, next_serial: self.issued + 1 }
    }
}

impl SessionStore {
    /// Whether the content keeps the rules of the session store. Every
    /// session store does.
    #[verifier::type_invariant]
    pub open spec fn wf(&self) -> bool {
        self@.wf()
    }

    /// A store in which no token was ever minted.
    pub fn new() -> (store: SessionStore)
        ensures
            store.wf(),
            store@ == SessionState::empty(),
    {
        let store = SessionStore { bindings: Vec::new(), issued: 0 };
        proof {
            assert(store@.bindings =~= Seq::empty());
        }
        store
    }

    /// The user that the token of a request stands for. A request without a
    /// token, or with one that is not bound, is unauthenticated.
    pub fn current_user(&self, token: Option<SessionToken>) -> (user: Option<i32>)
        ensures
            user == self@.user_behind(token),
            match user {
                Some(user_id) => self@.authenticates(token, user_id),
                None => !self@.is_authenticated(token),
            },
    {
        proof {
            use_type_invariant(self);
        }
        let presented = match token {
            Some(presented) => presented,
            None => {
                return None;
            },
        };
        let mut i: usize = 0;
        while i < self.bindings.len()
            invariant
                i <= self.bindings.len(),
                self.wf(),
                token == Some(presented),
                forall|k: int| 0 <= k < i ==> (#[trigger] self.bindings@[k]).token != presented,
            decreases self.bindings.len() - i,
        {
            if same_token(&self.bindings[i].token, &presented) {
                let user_id = self.bindings[i].user_id;
                proof {
                    assert(self@.bindings[i as int].token == presented);
                    assert(self@.authenticates(token, user_id));
                    let chosen = choose|chosen: i32| self@.authenticates(token, chosen);
                    lemma_resolves_one_user(self@, presented, user_id, chosen);
                }
                return Some(user_id);
            }
            i += 1;
        }
        None
    }

    /// Whether one more token can be minted.
    pub fn can_mint(&self) -> (possible: bool)
        ensures
            possible == self@.can_mint(),
    {
        self.issued < u64::MAX
    }

    /// Mints a token with this secret and binds it to the user. Nothing is
    /// minted once the serial numbers are used up.
    pub fn bind(&mut self, secret: [u8; 16], user_id: i32) -> (token: Option<SessionToken>)
        ensures
            final(self).wf(),
            match token {
                Some(token) => {
                    &&& old(self)@.can_mint()
                    &&& token == old(self)@.minted(secret)
                    &&& final(self)@ == old(self)@.with_binding(secret, user_id)
                },
                None => !old(self)@.can_mint() && final(self)@ == old(self)@,
            },
    {
        proof {
            use_type_invariant(&*self);
        }
        if self.issued == u64::MAX {
            return None;
        }
        proof {
            lemma_with_binding(self@, secret, user_id);
        }
        let serial: u64 = self.issued + 1;
        let token = SessionToken { serial, secret };
        let mut bindings: Vec<Binding> = Vec::new();
        core::mem::swap(&mut self.bindings, &mut bindings);
        bindings.push(Binding { token, user_id });
        self.issued = serial;
        self.bindings = bindings;
        Some(token)
    }

    /// Ends every session and starts the serial numbers over.
    fn restart(&mut self)
        ensures
            final(self).wf(),
            final(self)@ == SessionState::empty(),
    {
        self.bindings = Vec::new();
        self.issued = 0;
        proof {
            assert(self@.bindings =~= Seq::empty());
        }
    }

    /// Regenerates the session of a request for the user: the token that the
    /// request carried is invalidated, and a fresh token with this secret is
    /// minted and bound to the user. It differs from the carried one. Once
    /// the serial numbers are used up, every session ends and the numbers
    /// start over.
    pub fn regenerate(
        &mut self,
        carried: Option<SessionToken>,
        secret: [u8; 16],
        user_id: i32,
    ) -> (token: SessionToken)
        ensures
            final(self).wf(),
            token == old(self)@.renewed(carried).minted(secret),
            final(self)@ == old(self)@.regenerated(carried, secret, user_id),
            final(self)@.resolves(token, user_id),
            carried matches Some(gone) ==> !final(self)@.is_bound(gone) && gone != token,
            !old(self)@.renewed(carried).is_bound(token),
            old(self)@.next_serial < u64::MAX ==> !old(self)@.is_bound(token),
            old(self)@.can_mint() && !(carried matches Some(gone) && !old(self)@.is_bound(gone))
                ==> final(self)@ == old(self)@.without_any(carried).with_binding(
                secret,
                user_id,
            ),
    {
        proof {
            use_type_invariant(&*self);
            lemma_renewed(self@, carried, secret);
            lemma_with_binding(self@.renewed(carried), secret, user_id);
        }
        match carried {
            Some(gone) => {
                self.invalidate(gone);
            },
            None => {},
        }
        if self.issued == u64::MAX {
            self.restart();
        }
        match carried {
            Some(gone) => {
                if gone.serial == self.issued + 1 {
                    if self.issued + 1 == u64::MAX {
                        self.restart();
                    } else {
                        self.issued = self.issued + 1;
                    }
                }
            },
            None => {},
        }
        assert(self@ == old(self)@.renewed(carried));
        match self.bind(secret, user_id) {
            Some(token) => token,
            None => {
                proof {
                    assert(false);
                }
                SessionToken { serial: 0, secret }
            },
        }
    }

    /// Invalidates the token. One that is not bound is left as it is.
    pub fn invalidate(&mut self, token: SessionToken)
        ensures
            final(self).wf(),
            final(self)@ == old(self)@.without(token),
    {
        proof {
            use_type_invariant(&*self);
        }
        let ghost keep = negate(binding_of(token));
        let mut kept: Vec<Binding> = Vec::new();
        let mut i: usize = 0;
        proof {
            lemma_select_empty(keep);
            assert(self.bindings@.take(0) =~= Seq::empty());
        }
        while i < self.bindings.len()
            invariant
                i <= self.bindings.len(),
                keep == negate(binding_of(token)),
                kept@ == self.bindings@.take(i as int).filter(keep),
            decreases self.bindings.len() - i,
        {
            proof {
                lemma_select_step(self.bindings@, i as int, keep);
            }
            if !same_token(&self.bindings[i].token, &token) {
                kept.push(self.bindings[i]);
            }
            i += 1;
        }
        proof {
            assert(self.bindings@.take(i as int) =~= self.bindings@);
            lemma_without(self@, token);
        }
        self.bindings = kept;
    }
}

} // verus!
