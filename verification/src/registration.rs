//! Marshalling of an options record into the foreign ABI layout and the
//! decisions taken when the provider is registered with a session builder.
//!
//! The foreign registration entry point itself
//! (`SessionOptionsAppendExecutionProvider_OpenVINO`) takes raw pointers
//! and is called by unverified glue code around this library.  The
//! library's part is everything decidable on plain values: whether the
//! call may be made at all, exactly which field values are handed to it,
//! and how its status is translated into a result.

use vstd::prelude::*;

use crate::provider::{ContextHandle, OpenVINOExecutionProvider, ProviderRecord, provider_name};

verus! {

broadcast use vstd::string::to_string_from_display_ensures_for_str;

/// The errors registration can end in.
pub enum Error {
    /// The OpenVINO backend was not compiled or linked into the current
    /// build; carries the provider's display name.
    ProviderNotAvailable { name: String },
    /// The foreign registration call returned a failure status; carries
    /// the provider's display name and the foreign diagnostic text.
    RegistrationFailed { name: String, message: String },
}

/// The options record in the fixed layout the foreign engine consumes,
/// with plain values standing for the ABI's pointers: an absent string
/// becomes a null pointer, a present one a pointer into that string's
/// byte buffer, which stays alive for the duration of the call.  The
/// glue code that makes the call performs exactly that substitution.
pub struct OpenVINOProviderOptions {
    pub device_type: Option<String>,
    pub device_id: Option<String>,
    pub num_of_threads: usize,
    pub cache_dir: Option<String>,
    pub context: ContextHandle,
    pub enable_opencl_throttling: u8,
    pub enable_dynamic_shapes: u8,
    pub enable_vpu_fast_compile: u8,
}

/// The foreign integer convention for a boolean: 0 disabled, 1 enabled.
pub open spec fn bool_byte(b: bool) -> u8 {
    if b {
        1u8
    } else {
        0u8
    }
}

/// `o` is the faithful translation of the record `r`: strings verbatim,
/// thread count and context address copied, booleans coerced to the
/// foreign integer convention.
pub open spec fn marshals(r: ProviderRecord, o: OpenVINOProviderOptions) -> bool {
    &&& o.device_type.deep_view() == r.device_type
    &&& o.device_id.deep_view() == r.device_id
    &&& o.num_of_threads as nat == r.num_threads
    &&& o.cache_dir.deep_view() == r.cache_dir
    &&& o.context.addr as nat == r.context
    &&& o.enable_opencl_throttling == bool_byte(r.enable_opencl_throttling)
    &&& o.enable_dynamic_shapes == bool_byte(r.enable_dynamic_shapes)
    &&& o.enable_vpu_fast_compile == bool_byte(r.enable_vpu_fast_compile)
}

/// The status the foreign registration call came back with: either
/// success, or a failure carrying the engine's diagnostic text.
pub enum BackendStatus {
    Success,
    Failure { message: String },
}

fn clone_opt_string(s: &Option<String>) -> (r: Option<String>)
    ensures
        r.deep_view() == s.deep_view(),
{
    match s {
        Some(v) => Some(v.clone()),
        None => None,
    }
}

impl OpenVINOExecutionProvider {
    /// Translates this record into the ABI-fixed options layout.  Every
    /// field of the result is pinned to the corresponding field of the
    /// record; the record itself is only read.
    pub fn to_provider_options(&self) -> (o: OpenVINOProviderOptions)
        ensures
            marshals(self@, o),
    {
        OpenVINOProviderOptions {
            device_type: clone_opt_string(&self.device_type),
            device_id: clone_opt_string(&self.device_id),
            num_of_threads: self.num_threads,
            cache_dir: clone_opt_string(&self.cache_dir),
            context: self.context,
            enable_opencl_throttling: if self.enable_opencl_throttling {
                1
            } else {
                0
            },
            enable_dynamic_shapes: if self.enable_dynamic_shapes {
                1
            } else {
                0
            },
            enable_vpu_fast_compile: if self.enable_vpu_fast_compile {
                1
            } else {
                0
            },
        }
    }

    /// The first half of registration: decides whether the foreign call
    /// may be made.  If the backend is not available the result is the
    /// `ProviderNotAvailable` error carrying the provider's display
    /// name, and no options record is produced, so no foreign call can
    /// follow.  If the backend is available the result is exactly the
    /// marshalled record the call must be made with.
    pub fn prepare_register(&self, backend_available: bool) -> (r: Result<
        OpenVINOProviderOptions,
        Error,
    >)
        ensures
            backend_available <==> r is Ok,
            r matches Ok(o) ==> marshals(self@, o),
            r matches Err(e) ==> e matches Error::ProviderNotAvailable { name } && name@
                == provider_name(),
    {
        if backend_available {
            Ok(self.to_provider_options())
        } else {
            Err(Error::ProviderNotAvailable { name: self.as_str().to_string() })
        }
    }

    /// The second half of registration: translates the status the
    /// foreign call came back with.  Success becomes `Ok`; a failure
    /// becomes the `RegistrationFailed` error carrying the provider's
    /// display name and the foreign diagnostic text unchanged.
    pub fn finish_register(&self, status: BackendStatus) -> (r: Result<(), Error>)
        ensures
            status is Success <==> r is Ok,
            status matches BackendStatus::Failure { message } ==> r matches Err(e) && e
                matches Error::RegistrationFailed { name, message: m } && name@ == provider_name()
                && m == message,
    {
        match status {
            BackendStatus::Success => Ok(()),
            BackendStatus::Failure { message } => Err(
                Error::RegistrationFailed { name: self.as_str().to_string(), message },
            ),
        }
    }
}

} // verus!
