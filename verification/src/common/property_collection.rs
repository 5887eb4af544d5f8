use crate::c_string::c_string;
use crate::c_string::c_text;
use crate::c_string::from_c_buffer;
use crate::c_string::is_c_safe;
use crate::c_string::lemma_c_safe_chars;
use crate::c_string::lemma_c_string_round_trip;
use crate::c_string::to_c_string;
use crate::error::convert_err;
use crate::error::status_result;
use crate::error::Error;
use crate::handle::HandleView;
use crate::handle::SmartHandle;
use crate::native::Handle;
use crate::native::NativeCall;
use crate::native::NativeCallView;
use crate::native::Resource;
use crate::native::ResourceKind;
use vstd::prelude::*;

verus! {

/// The string properties of a configuration or a recognizer, kept by the
/// engine in a property bag that this value owns.
#[derive(Debug)]
pub struct PropertyCollection {
    handle: SmartHandle,
}

impl View for PropertyCollection {
    type V = HandleView;

    closed spec fn view(&self) -> HandleView {
        self.handle@
    }
}

impl PropertyCollection {
    /// The owner of the property bag `handle`.
    pub open spec fn of_bag(handle: Handle) -> HandleView {
        HandleView { label: "PropertyCollection"@, handle, kind: ResourceKind::PropertyBag }
    }

    /// The call that stores `value` under `name` in the bag of `bag`. A name
    /// or value with a zero byte is refused, whatever the state of the bag; a
    /// bag that has been released takes no call.
    pub open spec fn set_call(bag: HandleView, name: Seq<char>, value: Seq<char>) -> Result<
        NativeCallView,
        Error,
    > {
        if !is_c_safe(name) || !is_c_safe(value) {
            Err(Error::InvalidArgument)
        } else if !bag.is_live() {
            Err(Error::AlreadyReleased)
        } else {
            Ok(
                NativeCallView::PropertySetString {
                    bag: bag.handle,
                    name: c_string(name),
                    value: c_string(value),
                },
            )
        }
    }

    /// The call that looks `name` up in the bag of `bag`, refused on the same
    /// grounds as in [`PropertyCollection::set_call`].
    pub open spec fn get_call(bag: HandleView, name: Seq<char>) -> Result<NativeCallView, Error> {
        if !is_c_safe(name) {
            Err(Error::InvalidArgument)
        } else if !bag.is_live() {
            Err(Error::AlreadyReleased)
        } else {
            Ok(NativeCallView::PropertyGetString { bag: bag.handle, name: c_string(name) })
        }
    }

    /// Takes ownership of a property bag.
    pub fn from_handle(handle: Handle) -> (properties: PropertyCollection)
        ensures
            properties@ == Self::of_bag(handle),
    {
        PropertyCollection {
            handle: SmartHandle::create("PropertyCollection", handle, ResourceKind::PropertyBag),
        }
    }

    /// Name of the owning type, for diagnostics.
    pub fn label(&self) -> (label: &'static str)
        ensures
            label@ == self@.label,
    {
        self.handle.label()
    }

    /// The bag's handle, for passing into a call.
    pub fn get_handle(&self) -> (handle: Handle)
        ensures
            handle == self@.handle,
    {
        self.handle.inner()
    }

    /// Prepares the call that stores a property. No call is prepared for a
    /// name or value that cannot cross to the engine.
    pub fn set_property_by_string_call(&self, name: &str, value: &str) -> (prepared: Result<
        NativeCall,
        Error,
    >)
        ensures
            prepared matches Ok(call) ==> Self::set_call(self@, name@, value@) == Ok::<
                NativeCallView,
                Error,
            >(call@),
            prepared matches Err(e) ==> Self::set_call(self@, name@, value@) == Err::<
                NativeCallView,
                Error,
            >(e),
    {
        let c_name = match to_c_string(name) {
            Ok(bytes) => bytes,
            Err(e) => { return Err(e); },
        };
        let c_value = match to_c_string(value) {
            Ok(bytes) => bytes,
            Err(e) => { return Err(e); },
        };
        if !self.handle.is_live() {
            return Err(Error::AlreadyReleased);
        }
        Ok(NativeCall::PropertySetString { bag: self.handle.inner(), name: c_name, value: c_value })
    }

    /// Ends a store from the status that the engine answered.
    pub fn set_property_by_string(&self, status: usize) -> (stored: Result<(), Error>)
        ensures
            stored == status_result(status, "PropertyCollection::set_property_by_string error"),
    {
        convert_err(status, "PropertyCollection::set_property_by_string error")
    }

    /// Prepares the call that looks a property up.
    pub fn get_property_by_string_call(&self, name: &str) -> (prepared: Result<NativeCall, Error>)
        ensures
            prepared matches Ok(call) ==> Self::get_call(self@, name@) == Ok::<
                NativeCallView,
                Error,
            >(call@),
            prepared matches Err(e) ==> Self::get_call(self@, name@) == Err::<
                NativeCallView,
                Error,
            >(e),
    {
        let c_name = match to_c_string(name) {
            Ok(bytes) => bytes,
            Err(e) => { return Err(e); },
        };
        if !self.handle.is_live() {
            return Err(Error::AlreadyReleased);
        }
        Ok(NativeCall::PropertyGetString { bag: self.handle.inner(), name: c_name })
    }

    /// Ends a lookup: reads the value out of the buffer that the engine
    /// answered.
    pub fn get_property_by_string(&self, buf: &[u8]) -> (value: Result<String, Error>)
        ensures
            value matches Ok(text) ==> c_text(buf@) == Ok::<Seq<char>, Error>(text@),
            value matches Err(e) ==> c_text(buf@) == Err::<Seq<char>, Error>(e),
    {
        from_c_buffer(buf)
    }

    /// Gives up the bag; see [`SmartHandle::release`].
    pub fn release(&mut self) -> (call: Option<Resource>)
        ensures
            call == old(self)@.release_call(),
            final(self)@ == old(self)@.released(),
    {
        self.handle.release()
    }
}

/// A value stored and looked up again is unchanged: the bytes that a store
/// hands to the engine, read back from a buffer of any size, are the value.
pub proof fn lemma_property_round_trip(
    bag: HandleView,
    name: Seq<char>,
    value: Seq<char>,
    rest: Seq<u8>,
)
    requires
        bag.is_live(),
        is_c_safe(name),
        is_c_safe(value),
    ensures
        PropertyCollection::set_call(bag, name, value) matches Ok(
            NativeCallView::PropertySetString { value: stored, .. },
        ) && c_text(stored + rest) == Ok::<Seq<char>, Error>(value),
{
    lemma_c_string_round_trip(value, rest);
}

/// No call is prepared for a name or value with a zero character in it.
pub proof fn lemma_zero_character_is_refused(bag: HandleView, name: Seq<char>, value: Seq<char>)
    requires
        name.contains('\0') || value.contains('\0'),
    ensures
        PropertyCollection::set_call(bag, name, value) == Err::<NativeCallView, Error>(
            Error::InvalidArgument,
        ),
        name.contains('\0') ==> PropertyCollection::get_call(bag, name) == Err::<
            NativeCallView,
            Error,
        >(Error::InvalidArgument),
{
    lemma_c_safe_chars(name);
    lemma_c_safe_chars(value);
}

/// Nothing is stored in or looked up from the empty handle.
pub proof fn lemma_property_calls_name_live_handle(
    bag: HandleView,
    name: Seq<char>,
    value: Seq<char>,
)
    ensures
        PropertyCollection::set_call(bag, name, value) matches Ok(call)
            ==> call.names_live_handles(),
        PropertyCollection::get_call(bag, name) matches Ok(call) ==> call.names_live_handles(),
{
}

} // verus!
