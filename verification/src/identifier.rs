//! Actor identifiers.

use vstd::prelude::*;
use vstd::std_specs::cmp::PartialEqSpecImpl;
use vstd::string::to_string_from_display_ensures;

verus! {

/// The textual name under which one live actor is known to a system.
#[derive(Debug, Eq, Hash)]
pub struct ActorId {
    id: String,
}

impl View for ActorId {
    type V = Seq<char>;

    closed spec fn view(&self) -> Seq<char> {
        self.id@
    }
}

impl ActorId {
    /// The identifier's text as the string that holds it.
    pub closed spec fn text(&self) -> String {
        self.id
    }

    /// The identifier held by the string `id`.
    pub closed spec fn of(id: String) -> ActorId {
        ActorId { id }
    }

    /// An identifier is its text and nothing else.
    pub proof fn lemma_of_text(id: String)
        ensures
            ActorId::of(id).text() == id,
            ActorId::of(id)@ == id@,
    {
    }

    /// Spelling an identifier out and taking it up again gives it back.
    pub proof fn lemma_of_own_text(id: ActorId)
        ensures
            ActorId::of(id.text()) == id,
            id.text()@ == id@,
    {
    }

    pub fn new(id: String) -> (r: ActorId)
        ensures
            r@ == id@,
            r.text() == id,
            r == ActorId::of(id),
    {
        ActorId { id }
    }

    /// The text of the identifier.
    pub fn as_str(&self) -> (r: &str)
        ensures
            r@ == self@,
    {
        self.id.as_str()
    }

    /// The text of the identifier, owned.
    pub fn to_string(&self) -> (r: String)
        ensures
            r@ == self@,
    {
        self.id.clone()
    }

    /// The owned text this identifier was made from.
    pub fn into_string(self) -> (r: String)
        ensures
            r@ == self@,
            r == self.text(),
    {
        self.id
    }
}

impl Clone for ActorId {
    fn clone(&self) -> (r: ActorId)
        ensures
            r@ == self@,
    {
        ActorId { id: self.id.clone() }
    }
}

impl PartialEq for ActorId {
    fn eq(&self, other: &ActorId) -> (r: bool) {
        self.id == other.id
    }
}

impl PartialEqSpecImpl for ActorId {
    open spec fn obeys_eq_spec() -> bool {
        true
    }

    open spec fn eq_spec(&self, other: &ActorId) -> bool {
        self@ == other@
    }
}

/// Values that turn into an actor identifier, giving themselves up.
pub trait IntoActorId {
    fn into_actor_id(self) -> ActorId;
}

/// Values that name an actor identifier and stay usable afterwards.
pub trait ToActorId {
    fn to_actor_id(&self) -> ActorId;
}

impl IntoActorId for ActorId {
    fn into_actor_id(self) -> (r: ActorId)
        ensures
            r == self,
    {
        self
    }
}

impl ToActorId for ActorId {
    fn to_actor_id(&self) -> (r: ActorId)
        ensures
            r@ == self@,
    {
        self.clone()
    }
}

impl<T: std::fmt::Display + Sync + Send> IntoActorId for T {
    fn into_actor_id(self) -> (r: ActorId)
        ensures
            to_string_from_display_ensures::<T>(&self, r.text()),
    {
        ActorId::new(self.to_string())
    }
}

impl<T: std::fmt::Display + Sync + Send> ToActorId for T {
    fn to_actor_id(&self) -> (r: ActorId)
        ensures
            to_string_from_display_ensures::<T>(self, r.text()),
    {
        ActorId::new(self.to_string())
    }
}

} // verus!
