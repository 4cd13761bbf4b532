//! Extensions: the singletons that a system is built with, one for each
//! type.

use vstd::prelude::*;
use vstd::string::StringExecFns;
use std::any::TypeId;
use crate::token::{same_token, token, type_token};

verus! {

/// An extension was asked for that the system was not built with.
#[derive(Debug, Clone, Copy)]
pub struct ExtensionMissingError {
    /// The name of the extension's type.
    pub module: &'static str,
}

impl ExtensionMissingError {
    /// The text of this error.
    pub open spec fn message(&self) -> Seq<char> {
        "extension = `"@ + self.module@ + "` does not installed in ActorSystem."@
    }

    pub fn to_string(&self) -> (r: String)
        ensures
            r@ == self.message(),
    {
        let mut text = String::from_str("extension = `");
        text.append(self.module);
        text.append("` does not installed in ActorSystem.");
        text
    }
}

/// The value that `entries` hold for `token`: the one that was put in last.
pub open spec fn held<V>(entries: Seq<(TypeId, V)>, token: TypeId) -> Option<V>
    decreases entries.len(),
{
    if entries.len() == 0 {
        None
    } else if entries.last().0 == token {
        Some(entries.last().1)
    } else {
        held(entries.drop_last(), token)
    }
}

/// What is held for a token stands at some place, and nothing for the token
/// stands behind it.
proof fn lemma_held_at<V>(entries: Seq<(TypeId, V)>, token: TypeId, at: int)
    requires
        0 <= at < entries.len(),
        entries[at].0 == token,
        forall|j: int| at < j < entries.len() ==> entries[j].0 != token,
    ensures
        held(entries, token) == Some(entries[at].1),
    decreases entries.len(),
{
    if entries.last().0 != token {
        lemma_held_at(entries.drop_last(), token, at);
    }
}

/// Nothing is held for a token that stands at no place.
proof fn lemma_held_nowhere<V>(entries: Seq<(TypeId, V)>, token: TypeId)
    requires
        forall|j: int| 0 <= j < entries.len() ==> entries[j].0 != token,
    ensures
        held(entries, token).is_none(),
    decreases entries.len(),
{
    if entries.len() > 0 {
        lemma_held_nowhere(entries.drop_last(), token);
    }
}

/// Taking an entry out changes nothing for the other tokens.
proof fn lemma_held_without<V>(entries: Seq<(TypeId, V)>, at: int, token: TypeId)
    requires
        0 <= at < entries.len(),
        entries[at].0 != token,
    ensures
        held(entries.remove(at), token) == held(entries, token),
    decreases entries.len(),
{
    let without = entries.remove(at);
    if at == entries.len() - 1 {
        assert(without =~= entries.drop_last());
    } else {
        assert(without.last() == entries.last());
        assert(without.drop_last() =~= entries.drop_last().remove(at));
        if entries.last().0 != token {
            lemma_held_without(entries.drop_last(), at, token);
        }
    }
}

/// Changing the value that is held for a token changes what is held for
/// this token, and for no other.
proof fn lemma_held_changed<V>(entries: Seq<(TypeId, V)>, at: int, value: V)
    requires
        0 <= at < entries.len(),
        held(entries, entries[at].0) == Some(entries[at].1),
        forall|j: int| at < j < entries.len() ==> entries[j].0 != entries[at].0,
    ensures
        held(entries.update(at, (entries[at].0, value)), entries[at].0) == Some(value),
        forall|other: TypeId|
            other != entries[at].0 ==> held(entries.update(at, (entries[at].0, value)), other)
                == held(entries, other),
    decreases entries.len(),
{
    let token = entries[at].0;
    let changed = entries.update(at, (token, value));
    lemma_held_at(changed, token, at);
    assert forall|other: TypeId| other != token implies held(changed, other) == held(
        entries,
        other,
    ) by {
        lemma_held_same_tokens(entries, changed, other);
    }
}

/// What is held for a token depends only on the entries for this token.
proof fn lemma_held_same_tokens<V>(a: Seq<(TypeId, V)>, b: Seq<(TypeId, V)>, token: TypeId)
    requires
        a.len() == b.len(),
        forall|j: int| 0 <= j < a.len() ==> a[j].0 == b[j].0,
        forall|j: int| 0 <= j < a.len() && a[j].0 == token ==> a[j].1 == b[j].1,
    ensures
        held(a, token) == held(b, token),
    decreases a.len(),
{
    if a.len() > 0 {
        lemma_held_same_tokens(a.drop_last(), b.drop_last(), token);
    }
}

/// A container with at most one value in use for each type token.
#[derive(Debug)]
pub struct Extensions<V> {
    ext: Vec<(TypeId, V)>,
}

impl<V> View for Extensions<V> {
    type V = Seq<(TypeId, V)>;

    closed spec fn view(&self) -> Seq<(TypeId, V)> {
        self.ext@
    }
}

impl<V> Extensions<V> {
    /// The value installed for `token`, if one is.
    pub open spec fn installed(&self, token: TypeId) -> Option<V> {
        held(self@, token)
    }

    /// The container without values.
    pub fn new() -> (r: Extensions<V>)
        ensures
            r@.len() == 0,
            forall|token: TypeId| r.installed(token).is_none(),
    {
        Extensions { ext: Vec::new() }
    }

    /// The place of the value installed for `token`, if one is.
    fn position(&self, token: &TypeId) -> (r: Option<usize>)
        ensures
            match r {
                Some(at) => {
                    &&& at < self@.len()
                    &&& self@[at as int].0 == *token
                    &&& self.installed(*token) == Some(self@[at as int].1)
                    &&& forall|j: int| at < j < self@.len() ==> self@[j].0 != *token
                },
                None => self.installed(*token).is_none(),
            },
    {
        let mut i: usize = self.ext.len();
        while i > 0
            invariant
                0 <= i <= self@.len(),
                forall|j: int| i <= j < self@.len() ==> self@[j].0 != *token,
            decreases i,
        {
            i = i - 1;
            if same_token(&self.ext[i].0, token) {
                proof {
                    lemma_held_at(self@, *token, i as int);
                }
                return Some(i);
            }
        }
        proof {
            lemma_held_nowhere(self@, *token);
        }
        None
    }

    /// Installs `value` for `token` and hands back the value that it
    /// replaces, if it replaces one. What is installed for other tokens
    /// stays.
    pub fn install_as(&mut self, token: TypeId, value: V) -> (r: Option<V>)
        ensures
            r == old(self).installed(token),
            final(self).installed(token) == Some(value),
            forall|other: TypeId|
                other != token ==> final(self).installed(other) == old(self).installed(other),
    {
        let ghost before = self@;
        let replaced = match self.position(&token) {
            Some(at) => {
                proof {
                    assert forall|other: TypeId| other != token implies held(
                        before.remove(at as int),
                        other,
                    ) == held(before, other) by {
                        lemma_held_without(before, at as int, other);
                    }
                }
                Some(self.ext.remove(at).1)
            },
            None => None,
        };
        let ghost middle = self@;
        self.ext.push((token, value));
        proof {
            assert(self@.drop_last() =~= middle);
        }
        replaced
    }

    /// Installs `value` as the extension of type `T`. A value that was
    /// installed for `T` before is replaced. What is installed for other
    /// types stays.
    pub fn install<T: 'static>(&mut self, value: V)
        ensures
            final(self).installed(type_token::<T>()) == Some(value),
            forall|other: TypeId|
                other != type_token::<T>() ==> final(self).installed(other) == old(self).installed(other),
    {
        let _ = self.install_as(token::<T>(), value);
    }

    /// The value installed for `token`, if one is.
    pub fn get_as(&self, token: &TypeId) -> (r: Option<&V>)
        ensures
            match r {
                Some(value) => self.installed(*token) == Some(*value),
                None => self.installed(*token).is_none(),
            },
    {
        match self.position(token) {
            Some(at) => Some(&self.ext[at].1),
            None => None,
        }
    }

    /// The value installed for `token`, if one is, to be changed in place.
    pub fn get_mut_as(&mut self, token: &TypeId) -> (r: Option<&mut V>)
        ensures
            match r {
                Some(value) => {
                    &&& old(self).installed(*token) == Some(*value)
                    &&& final(self).installed(*token) == Some(*final(value))
                    &&& forall|other: TypeId|
                        other != *token ==> final(self).installed(other) == old(self).installed(
                            other,
                        )
                },
                None => old(self).installed(*token).is_none() && *final(self) == *old(self),
            },
    {
        let ghost before = self@;
        match self.position(token) {
            Some(at) => {
                let value = &mut self.ext[at].1;
                proof {
                    lemma_held_changed(before, at as int, *final(value));
                }
                Some(value)
            },
            None => None,
        }
    }

    /// The extension of type `T`, if one is installed, to be changed in
    /// place.
    pub fn get_mut<T: 'static>(&mut self) -> (r: Option<&mut V>)
        ensures
            match r {
                Some(value) => {
                    &&& old(self).installed(type_token::<T>()) == Some(*value)
                    &&& final(self).installed(type_token::<T>()) == Some(*final(value))
                    &&& forall|other: TypeId|
                        other != type_token::<T>() ==> final(self).installed(other) == old(self).installed(other)
                },
                None => old(self).installed(type_token::<T>()).is_none() && *final(self) == *old(self),
            },
    {
        let kind = token::<T>();
        self.get_mut_as(&kind)
    }

    /// The extension of type `T`, if one is installed.
    pub fn get<T: 'static>(&self) -> (r: Option<&V>)
        ensures
            match r {
                Some(value) => self.installed(type_token::<T>()) == Some(*value),
                None => self.installed(type_token::<T>()).is_none(),
            },
    {
        let kind = token::<T>();
        self.get_as(&kind)
    }
}

} // verus!
