//! Proved guarantees of the two loading operations, stated over the
//! abstract store state of [`crate::store`].
//!
//! Each law speaks through [`spec_load_strict`], [`spec_load_or_create`] and
//! [`spec_load_or_create_next`], which the contracts of
//! [`crate::store::Store::load_strict`] and
//! [`crate::store::Store::load_or_create`] tie to the executable operations;
//! together they carry each statement over to every run on a well-formed
//! store.

use vstd::prelude::*;

use crate::failure::FailureKind;
use crate::store::{StoreView, put_view};
use crate::store::{spec_load_or_create, spec_load_or_create_next, spec_load_strict};

verus! {

/// Where the resource is absent and its creation is not denied,
/// `load_or_create` succeeds with empty content, and the resource exists —
/// empty — afterward.
pub proof fn lemma_absent_create_succeeds(s: StoreView, name: Seq<char>)
    requires
        !s.contents.dom().contains(name),
        !s.uncreatable.contains(name),
    ensures
        spec_load_or_create(s, name) == Ok::<Seq<char>, FailureKind>(Seq::<char>::empty()),
        spec_load_or_create_next(s, name).contents.dom().contains(name),
        spec_load_or_create_next(s, name).contents[name] == Seq::<char>::empty(),
{
}

/// Where the resource exists with content `c` and neither opening nor
/// reading it is denied, both operations return exactly `c`, and
/// `load_or_create` leaves the store unchanged.
pub proof fn lemma_existing_loads_content(s: StoreView, name: Seq<char>)
    requires
        s.contents.dom().contains(name),
        !s.unopenable.contains(name),
        !s.unreadable.contains(name),
    ensures
        spec_load_strict(s, name) == Ok::<Seq<char>, FailureKind>(s.contents[name]),
        spec_load_or_create(s, name) == Ok::<Seq<char>, FailureKind>(s.contents[name]),
        spec_load_or_create_next(s, name) == s,
{
}

/// Round trip: writing content `c` under a name whose opening and reading
/// are not denied, then loading strictly, reproduces `c` exactly.
pub proof fn lemma_write_then_load(s: StoreView, name: Seq<char>, c: Seq<char>)
    requires
        !s.unopenable.contains(name),
        !s.unreadable.contains(name),
    ensures
        spec_load_strict(put_view(s, name, c), name) == Ok::<Seq<char>, FailureKind>(c),
{
}

/// Where the resource is absent, `load_strict` reports `NotFound`. It never
/// creates the resource: the operation takes the store immutably, so the
/// store's state — absence included — is what it was before the call.
pub proof fn lemma_strict_absent_not_found(s: StoreView, name: Seq<char>)
    requires
        !s.contents.dom().contains(name),
    ensures
        spec_load_strict(s, name) == Err::<Seq<char>, FailureKind>(FailureKind::NotFound),
{
}

/// Where the resource exists but reading its content is denied, both
/// operations report `ReadFailed`, and `load_or_create` leaves the store
/// unchanged. The executable operations' contracts add that every reported
/// failure carries a non-empty diagnostic.
pub proof fn lemma_read_denied_fails(s: StoreView, name: Seq<char>)
    requires
        s.contents.dom().contains(name),
        s.unreadable.contains(name),
        !s.unopenable.contains(name),
    ensures
        spec_load_strict(s, name) == Err::<Seq<char>, FailureKind>(FailureKind::ReadFailed),
        spec_load_or_create(s, name) == Err::<Seq<char>, FailureKind>(FailureKind::ReadFailed),
        spec_load_or_create_next(s, name) == s,
{
}

/// Where the resource is absent and its creation is denied, `load_or_create`
/// reports `CreateFailed` and the resource remains absent.
pub proof fn lemma_create_denied_fails(s: StoreView, name: Seq<char>)
    requires
        !s.contents.dom().contains(name),
        s.uncreatable.contains(name),
    ensures
        spec_load_or_create(s, name) == Err::<Seq<char>, FailureKind>(FailureKind::CreateFailed),
        spec_load_or_create_next(s, name) == s,
        !spec_load_or_create_next(s, name).contents.dom().contains(name),
{
}

/// Idempotence: on an initially absent resource that nothing denies, two
/// `load_or_create` calls in sequence both succeed with empty content, and
/// the second call finds the resource already present and changes nothing.
pub proof fn lemma_load_or_create_idempotent(s: StoreView, name: Seq<char>)
    requires
        !s.contents.dom().contains(name),
        !s.uncreatable.contains(name),
        !s.unopenable.contains(name),
        !s.unreadable.contains(name),
    ensures
        spec_load_or_create(s, name) == Ok::<Seq<char>, FailureKind>(Seq::<char>::empty()),
        spec_load_or_create(spec_load_or_create_next(s, name), name) == Ok::<
            Seq<char>,
            FailureKind,
        >(Seq::<char>::empty()),
        spec_load_or_create_next(spec_load_or_create_next(s, name), name)
            == spec_load_or_create_next(s, name),
{
}

} // verus!
