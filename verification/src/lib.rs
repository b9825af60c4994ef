//! A generic holder that stores either a bare value of type `T` or an
//! `Option<T>`, the mode chosen by a const generic flag. The two modes are
//! distinct static types; conversions between them produce new holders.

use vstd::prelude::*;

verus! {

/// The error reported when an optional-mode holder whose optional is absent
/// is converted to plain mode. No other operation can fail.
#[derive(Clone, Copy, Debug, PartialEq, Eq, Structural)]
pub struct AbsentValueError;

/// A holder that stores a bare `T` when `IS_OPTION` is `false` and an
/// `Option<T>` when `IS_OPTION` is `true`. Exactly one of the two slots is
/// occupied, which one being fixed by the const generic mode flag.
pub struct MaybeOption<T, const IS_OPTION: bool> {
    option: Option<Option<T>>,
    value: Option<T>,
}

/// Mutable access to the contents of an occupied slot. Marked `no_unwind` so
/// that it may borrow a field of the holder, whose type invariant must
/// survive an early exit.
fn slot_mut<T>(slot: &mut Option<T>) -> (r: &mut T)
    requires
        *old(slot) is Some,
    ensures
        *r == (*old(slot))->0,
        *final(slot) == Some(*final(r)),
    no_unwind
{
    match slot {
        Some(v) => v,
        None => vstd::pervasive::unreached(),
    }
}

impl<T, const IS_OPTION: bool> MaybeOption<T, IS_OPTION> {
    /// The slot that the mode flag selects is occupied; the other is empty.
    #[verifier::type_invariant]
    spec fn mode_consistent(self) -> bool {
        if IS_OPTION {
            self.option is Some && self.value is None
        } else {
            self.option is None && self.value is Some
        }
    }
}

impl<T> MaybeOption<T, false> {
    /// The value a plain-mode holder stores.
    pub closed spec fn stored(self) -> T {
        self.value->0
    }

    /// Read access to the stored value.
    pub fn value(&self) -> (r: &T)
        ensures
            *r == self.stored(),
    {
        proof {
            use_type_invariant(self);
        }
        match &self.value {
            Some(v) => v,
            None => vstd::pervasive::unreached(),
        }
    }

    /// Mutable access to the stored value: the caller may change the value in
    /// place; the holder stays in plain mode and stores whatever the caller
    /// leaves behind the reference.
    pub fn value_mut(&mut self) -> (r: &mut T)
        ensures
            *r == old(self).stored(),
            *final(self) == spec_plain(*final(r)),
            final(self).stored() == *final(r),
    {
        proof {
            use_type_invariant(&*self);
        }
        slot_mut(&mut self.value)
    }
}

impl<T> MaybeOption<T, true> {
    /// The optional value an optional-mode holder stores.
    pub closed spec fn stored_opt(self) -> Option<T> {
        self.option->0
    }

    /// Read access to the stored optional value.
    pub fn option(&self) -> (r: &Option<T>)
        ensures
            *r == self.stored_opt(),
    {
        proof {
            use_type_invariant(self);
        }
        match &self.option {
            Some(o) => o,
            None => vstd::pervasive::unreached(),
        }
    }

    /// Mutable access to the stored optional value: the caller may change the
    /// present value in place, or toggle presence and absence; the holder
    /// stays in optional mode and stores whatever the caller leaves behind
    /// the reference.
    pub fn option_mut(&mut self) -> (r: &mut Option<T>)
        ensures
            *r == old(self).stored_opt(),
            *final(self) == spec_optional(*final(r)),
            final(self).stored_opt() == *final(r),
    {
        proof {
            use_type_invariant(&*self);
        }
        slot_mut(&mut self.option)
    }
}

impl<T: Clone> Clone for MaybeOption<T, false> {
    /// Clone keeps the plain mode; the stored value is cloned with
    /// `T::clone`.
    fn clone(&self) -> (r: Self)
        ensures
            vstd::pervasive::cloned::<T>(self.stored(), r.stored()),
            r == spec_plain(r.stored()),
    {
        proof {
            use_type_invariant(self);
        }
        match &self.value {
            Some(v) => MaybeOption { option: None, value: Some(v.clone()) },
            None => vstd::pervasive::unreached(),
        }
    }
}

impl<T: Copy> Copy for MaybeOption<T, false> {}

impl<T: Clone> Clone for MaybeOption<T, true> {
    /// Clone keeps the optional mode and the presence or absence of the
    /// value; a present value is cloned with `T::clone`.
    fn clone(&self) -> (r: Self)
        ensures
            self.stored_opt() is None ==> r.stored_opt() is None,
            self.stored_opt() is Some ==> r.stored_opt() is Some
                && vstd::pervasive::cloned::<T>(self.stored_opt()->0, r.stored_opt()->0),
            r == spec_optional(r.stored_opt()),
    {
        proof {
            use_type_invariant(self);
        }
        match &self.option {
            Some(o) => MaybeOption { option: Some(o.clone()), value: None },
            None => vstd::pervasive::unreached(),
        }
    }
}

impl<T: Copy> Copy for MaybeOption<T, true> {}

impl<T> vstd::std_specs::convert::FromSpecImpl<T> for MaybeOption<T, false> {
    open spec fn obeys_from_spec() -> bool {
        true
    }

    closed spec fn from_spec(v: T) -> Self {
        MaybeOption { option: None, value: Some(v) }
    }
}

/// The plain-mode holder that stores `v`: what `MaybeOption::from(v)`
/// returns. Every plain-mode holder the library hands out has this form.
pub open spec fn spec_plain<T>(v: T) -> MaybeOption<T, false> {
    <MaybeOption<T, false> as vstd::std_specs::convert::FromSpec<T>>::from_spec(v)
}

/// The optional-mode holder that stores `o`: what `MaybeOption::from(o)`
/// returns. Every optional-mode holder the library hands out has this form.
pub open spec fn spec_optional<T>(o: Option<T>) -> MaybeOption<T, true> {
    <MaybeOption<T, true> as vstd::std_specs::convert::FromSpec<Option<T>>>::from_spec(o)
}

/// The optional-mode holder that converting the plain-mode holder `m`
/// produces: what `MaybeOption::from(m)` returns.
pub open spec fn spec_to_optional<T>(m: MaybeOption<T, false>) -> MaybeOption<T, true> {
    <MaybeOption<T, true> as vstd::std_specs::convert::FromSpec<MaybeOption<T, false>>>::from_spec(
        m,
    )
}

impl<T> From<T> for MaybeOption<T, false> {
    /// Construct a plain-mode holder that stores `v` directly. Total: this
    /// never fails.
    fn from(v: T) -> Self {
        MaybeOption { option: None, value: Some(v) }
    }
}

impl<T> vstd::std_specs::convert::FromSpecImpl<Option<T>> for MaybeOption<T, true> {
    open spec fn obeys_from_spec() -> bool {
        true
    }

    closed spec fn from_spec(o: Option<T>) -> Self {
        MaybeOption { option: Some(o), value: None }
    }
}

impl<T> From<Option<T>> for MaybeOption<T, true> {
    /// Construct an optional-mode holder that stores `o` as given, present or
    /// absent. Total: this never fails.
    fn from(o: Option<T>) -> Self {
        MaybeOption { option: Some(o), value: None }
    }
}

impl<T> vstd::std_specs::convert::FromSpecImpl<MaybeOption<T, false>> for MaybeOption<T, true> {
    open spec fn obeys_from_spec() -> bool {
        true
    }

    closed spec fn from_spec(m: MaybeOption<T, false>) -> Self {
        MaybeOption { option: Some(Some(m.stored())), value: None }
    }
}

impl<T> From<MaybeOption<T, false>> for MaybeOption<T, true> {
    /// Convert a plain-mode holder into an optional-mode holder: the stored
    /// value becomes present. Total: this never fails.
    fn from(m: MaybeOption<T, false>) -> Self {
        proof {
            use_type_invariant(&m);
        }
        match m.value {
            Some(v) => MaybeOption { option: Some(Some(v)), value: None },
            None => vstd::pervasive::unreached(),
        }
    }
}

impl<T> MaybeOption<T, false> {
    /// Convert an optional-mode holder into a plain-mode holder: succeeds
    /// with the unwrapped value exactly when the optional is present, and
    /// fails with `AbsentValueError` exactly when it is absent.
    pub fn try_from(m: MaybeOption<T, true>) -> (r: Result<Self, AbsentValueError>)
        ensures
            m.stored_opt() is Some ==> r is Ok && r->Ok_0 == spec_plain(m.stored_opt()->0)
                && (r->Ok_0).stored() == m.stored_opt()->0,
            m.stored_opt() is None ==> r is Err && r->Err_0 == AbsentValueError,
    {
        proof {
            use_type_invariant(&m);
        }
        match m.option {
            Some(Some(v)) => Ok(MaybeOption { option: None, value: Some(v) }),
            Some(None) => Err(AbsentValueError),
            None => vstd::pervasive::unreached(),
        }
    }
}

/// Law: constructing a plain-mode holder from `v` and reading it back yields
/// exactly `v`.
pub proof fn lemma_plain_construct_read<T>(v: T)
    ensures
        spec_plain(v).stored() == v,
{
}

/// Law: constructing an optional-mode holder from `o` and reading it back
/// yields exactly `o`.
pub proof fn lemma_optional_construct_read<T>(o: Option<T>)
    ensures
        spec_optional(o).stored_opt() == o,
{
}

/// Law: converting a plain-mode holder to optional mode and reading it back
/// yields the stored value, present.
pub proof fn lemma_plain_to_optional_read<T>(m: MaybeOption<T, false>)
    ensures
        spec_to_optional(m).stored_opt() == Some(m.stored()),
{
}

/// Law: the round trip from plain mode through optional mode and back
/// preserves the stored value. Converting the plain holder `p` to optional
/// mode yields a present optional, and the plain holder that the successful
/// optional-to-plain conversion then returns stores exactly what `p` stored.
pub proof fn lemma_round_trip<T>(p: MaybeOption<T, false>)
    ensures
        spec_to_optional(p).stored_opt() is Some,
        spec_plain(spec_to_optional(p).stored_opt()->0) == spec_plain(p.stored()),
        spec_plain(spec_to_optional(p).stored_opt()->0).stored() == p.stored(),
{
}

} // verus!
