//! Round-robin selection over a fixed, ordered pool of credentials.

use crate::error::TranslationError;
use vstd::prelude::*;

verus! {

/// The cursor after one selection in a pool of `n` credentials.
pub open spec fn advance(cursor: nat, n: nat) -> nat {
    (cursor + 1) % n
}

/// The cursor after `k` selections from `start` in a pool of `n` credentials;
/// it is also the index that selection `k + 1` returns.
pub open spec fn cursor_after(n: nat, start: nat, k: nat) -> nat
    decreases k,
{
    if k == 0 {
        start
    } else {
        advance(cursor_after(n, start, (k - 1) as nat), n)
    }
}

/// A non-empty, ordered pool of credentials and a rotation cursor.
#[derive(Debug)]
pub struct CredentialPool {
    credentials: Vec<String>,
    cursor: usize,
}

impl CredentialPool {
    /// The credentials, in the order they were configured.
    pub closed spec fn keys(&self) -> Seq<String> {
        self.credentials@
    }

    /// The index of the credential that the next selection returns.
    pub closed spec fn position(&self) -> nat {
        self.cursor as nat
    }

    /// The pool is not empty and the cursor indexes one of its entries.
    pub open spec fn wf(&self) -> bool {
        0 < self.keys().len() && self.position() < self.keys().len()
    }

    /// A pool over `credentials`, starting at the first; an empty list is a
    /// configuration error.
    pub fn new(credentials: Vec<String>) -> (r: Result<CredentialPool, TranslationError>)
        ensures
            (r is Err) <==> credentials@.len() == 0,
            r matches Err(e) ==> e matches TranslationError::ConfigurationError(m) && m@
                == "No API keys configured"@,
            r matches Ok(p) ==> p.wf() && p.keys() == credentials@ && p.position() == 0,
    {
        if credentials.len() == 0 {
            Err(TranslationError::ConfigurationError("No API keys configured".to_owned()))
        } else {
            Ok(CredentialPool { credentials, cursor: 0 })
        }
    }

    /// The number of credentials.
    pub fn len(&self) -> (r: usize)
        ensures
            r == self.keys().len(),
    {
        self.credentials.len()
    }

    /// Selects the credential at the cursor and advances the cursor, modulo
    /// the pool's size. Returns the index selected and the credential there.
    pub fn next(&mut self) -> (r: (usize, String))
        requires
            old(self).wf(),
        ensures
            final(self).wf(),
            final(self).keys() == old(self).keys(),
            r.0 == old(self).position(),
            r.1 == old(self).keys()[r.0 as int],
            final(self).position() == advance(old(self).position(), old(self).keys().len()),
    {
        let current = self.cursor;
        assert(current < self.credentials.len());
        let key = self.credentials[current].clone();
        self.cursor = (self.cursor + 1) % self.credentials.len();
        (current, key)
    }
}

proof fn lemma_cursor_mod(n: nat, k: nat)
    requires
        n > 0,
    ensures
        cursor_after(n, 0, k) == k % n,
    decreases k,
{
    if k == 0 {
        vstd::arithmetic::div_mod::lemma_small_mod(0, n);
    } else {
        lemma_cursor_mod(n, (k - 1) as nat);
        vstd::arithmetic::div_mod::lemma_add_mod_noop((k - 1) as int, 1, n as int);
        vstd::arithmetic::div_mod::lemma_mod_twice((k - 1) as int + 1, n as int);
        if n > 1 {
            vstd::arithmetic::div_mod::lemma_small_mod(1, n);
        } else {
            vstd::arithmetic::div_mod::lemma_mod_self_0(1);
        }
    }
}

/// Round robin: from a fresh pool of `n` credentials, selection `k + 1` returns
/// index `k mod n`. So `n` consecutive selections return each credential once,
/// in the order configured, and the next one wraps to the first.
pub proof fn lemma_round_robin(n: nat, k: nat)
    requires
        n > 0,
    ensures
        cursor_after(n, 0, k) == k % n,
        k < n ==> cursor_after(n, 0, k) == k,
        cursor_after(n, 0, n) == 0,
{
    lemma_cursor_mod(n, k);
    lemma_cursor_mod(n, n);
    vstd::arithmetic::div_mod::lemma_mod_self_0(n as int);
    if k < n {
        vstd::arithmetic::div_mod::lemma_small_mod(k, n);
    }
}

} // verus!
