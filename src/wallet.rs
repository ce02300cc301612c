//! Bringing a named wallet into use on the node, tolerating one that already
//! exists or is already loaded.
//!
//! The caller talks to the node: it asks to create the wallet, hands the reply
//! to [`after_create`], and follows each returned step until it is `Ready` or
//! `Fail`.
use vstd::prelude::*;

use crate::text::{contains_text, has_infix, same_text};

verus! {

/// Which of the node's errors a failed bootstrap reports.
#[derive(Debug, Clone, Copy, PartialEq, Eq, Structural)]
pub enum WalletFailure {
    /// The error of the creation request.
    Create,
    /// The error of the load request.
    Load,
    /// The error of the listing request.
    List,
}

/// What to do next.
#[derive(Debug, Clone, Copy, PartialEq, Eq, Structural)]
pub enum WalletStep {
    /// Ask the node to load the wallet, then call [`after_load`].
    Load,
    /// Ask the node to list its wallets, then call [`after_list`] with the
    /// failure to report if the wallet is not among them.
    List(WalletFailure),
    /// The wallet is in use.
    Ready,
    /// Give up, reporting the given error.
    Fail(WalletFailure),
}

/// The node's error text says the wallet already exists.
pub open spec fn says_exists(msg: Seq<char>) -> bool {
    has_infix(msg, "already exists"@)
}

/// The node's error text says the wallet is already loaded.
pub open spec fn says_loaded(msg: Seq<char>) -> bool {
    has_infix(msg, "already loaded"@)
}

/// `name` is one of `names`.
pub open spec fn is_listed(names: Seq<String>, name: Seq<char>) -> bool {
    exists|i: int| 0 <= i < names.len() && names[i]@ == name
}

pub open spec fn create_step(reply: Result<(), String>) -> WalletStep {
    match reply {
        Ok(_) => WalletStep::Ready,
        Err(m) => if says_exists(m@) {
            WalletStep::Load
        } else {
            WalletStep::List(WalletFailure::Create)
        },
    }
}

pub open spec fn load_step(reply: Result<(), String>) -> WalletStep {
    match reply {
        Ok(_) => WalletStep::Ready,
        Err(m) => if says_loaded(m@) {
            WalletStep::Ready
        } else {
            WalletStep::List(WalletFailure::Load)
        },
    }
}

pub open spec fn list_step(reply: Result<Vec<String>, String>, name: Seq<char>, pending: WalletFailure) -> WalletStep {
    match reply {
        Ok(names) => if is_listed(names@, name) {
            WalletStep::Ready
        } else {
            WalletStep::Fail(pending)
        },
        Err(_) => WalletStep::Fail(WalletFailure::List),
    }
}

/// Whether `name` is one of `names`.
pub fn wallet_listed(names: &Vec<String>, name: &str) -> (r: bool)
    ensures
        r == is_listed(names@, name@),
{
    let mut i: usize = 0;
    while i < names.len()
        invariant
            i <= names@.len(),
            forall|k: int| 0 <= k < i ==> names@[k]@ != name@,
        decreases names@.len() - i,
    {
        if same_text(names[i].as_str(), name) {
            return true;
        }
        i += 1;
    }
    false
}

/// The step after the node's reply to the creation request.
pub fn after_create(reply: &Result<(), String>) -> (s: WalletStep)
    ensures
        s == create_step(*reply),
{
    match reply {
        Ok(_) => WalletStep::Ready,
        Err(m) => if contains_text(m.as_str(), "already exists") {
            WalletStep::Load
        } else {
            WalletStep::List(WalletFailure::Create)
        },
    }
}

/// The step after the node's reply to the load request.
pub fn after_load(reply: &Result<(), String>) -> (s: WalletStep)
    ensures
        s == load_step(*reply),
{
    match reply {
        Ok(_) => WalletStep::Ready,
        Err(m) => if contains_text(m.as_str(), "already loaded") {
            WalletStep::Ready
        } else {
            WalletStep::List(WalletFailure::Load)
        },
    }
}

/// The step after the node's reply to the listing request; `pending` is the
/// failure carried by the `List` step that asked for it.
pub fn after_list(reply: &Result<Vec<String>, String>, name: &str, pending: WalletFailure) -> (s: WalletStep)
    ensures
        s == list_step(*reply, name@, pending),
{
    match reply {
        Ok(names) => if wallet_listed(names, name) {
            WalletStep::Ready
        } else {
            WalletStep::Fail(pending)
        },
        Err(_) => WalletStep::Fail(WalletFailure::List),
    }
}

/// Bootstrapping again against a node that already holds the wallet succeeds:
/// creation reports that the wallet exists, so it is loaded, and a load that
/// succeeds or reports that the wallet is already loaded leaves it ready.
pub proof fn lemma_rerun_on_existing_wallet(create_error: String, load_reply: Result<(), String>)
    requires
        says_exists(create_error@),
        load_reply matches Err(m) ==> says_loaded(m@),
    ensures
        create_step(Err(create_error)) == WalletStep::Load,
        load_step(load_reply) == WalletStep::Ready,
{
}

/// Whatever failed before, a listing that shows the wallet leaves it ready.
pub proof fn lemma_listed_wallet_ready(names: Vec<String>, name: Seq<char>, pending: WalletFailure)
    requires
        is_listed(names@, name),
    ensures
        list_step(Ok(names), name, pending) == WalletStep::Ready,
{
}

} // verus!
