//! The options record for the OpenVINO execution provider and its
//! fluent configuration setters.

use vstd::prelude::*;

verus! {

broadcast use vstd::string::to_string_from_display_ensures_for_str;

/// A non-owning handle to an externally created compute context (for
/// OpenVINO, a `cl_context`).  The library never allocates, frees or
/// dereferences the handle: it only stores the raw address and forwards
/// it verbatim to the foreign registration call.  An address of zero
/// stands for "no context".
#[derive(Clone, Copy, Debug, PartialEq, Eq, Structural)]
pub struct ContextHandle {
    pub addr: usize,
}

impl ContextHandle {
    /// The null handle: no externally supplied context.
    pub fn null() -> (r: Self)
        ensures
            r.addr == 0,
    {
        ContextHandle { addr: 0 }
    }
}

/// The mathematical content of an options record: every field as a plain
/// value, strings as character sequences.
pub ghost struct ProviderRecord {
    pub device_type: Option<Seq<char>>,
    pub device_id: Option<Seq<char>>,
    pub num_threads: nat,
    pub cache_dir: Option<Seq<char>>,
    pub context: nat,
    pub enable_opencl_throttling: bool,
    pub enable_dynamic_shapes: bool,
    pub enable_vpu_fast_compile: bool,
}

/// The record an unconfigured builder holds: no strings chosen, eight
/// worker threads, no context, all feature flags off.
pub open spec fn default_record() -> ProviderRecord {
    ProviderRecord {
        device_type: None,
        device_id: None,
        num_threads: 8,
        cache_dir: None,
        context: 0,
        enable_opencl_throttling: false,
        enable_dynamic_shapes: false,
        enable_vpu_fast_compile: false,
    }
}

/// Configuration builder for the OpenVINO execution provider.
///
/// A fresh builder holds the documented defaults; each setter consumes
/// the builder and returns it with exactly one field updated, so a chain
/// of setters never passes through a partially initialised state.
#[derive(Clone, Debug)]
pub struct OpenVINOExecutionProvider {
    pub device_type: Option<String>,
    pub device_id: Option<String>,
    pub num_threads: usize,
    pub cache_dir: Option<String>,
    pub context: ContextHandle,
    pub enable_opencl_throttling: bool,
    pub enable_dynamic_shapes: bool,
    pub enable_vpu_fast_compile: bool,
}

impl View for OpenVINOExecutionProvider {
    type V = ProviderRecord;

    open spec fn view(&self) -> ProviderRecord {
        ProviderRecord {
            device_type: self.device_type.deep_view(),
            device_id: self.device_id.deep_view(),
            num_threads: self.num_threads as nat,
            cache_dir: self.cache_dir.deep_view(),
            context: self.context.addr as nat,
            enable_opencl_throttling: self.enable_opencl_throttling,
            enable_dynamic_shapes: self.enable_dynamic_shapes,
            enable_vpu_fast_compile: self.enable_vpu_fast_compile,
        }
    }
}

impl OpenVINOExecutionProvider {
    /// Overrides the hardware type and precision the engine selects at
    /// runtime (for example `"CPU_FP32"`).  Left unset, the default
    /// chosen at the engine's build time applies.
    pub fn with_device_type(self, device_type: &str) -> (r: Self)
        ensures
            r@ == (ProviderRecord { device_type: Some(device_type@), ..self@ }),
            r@ == apply_op(self@, SetterOp::DeviceType(device_type@)),
    {
        let mut this = self;
        this.device_type = Some(device_type.to_string());
        this
    }

    /// Selects one physical device for inference.  Left unset, the
    /// engine picks an arbitrary free device.
    pub fn with_device_id(self, device_id: &str) -> (r: Self)
        ensures
            r@ == (ProviderRecord { device_id: Some(device_id@), ..self@ }),
            r@ == apply_op(self@, SetterOp::DeviceId(device_id@)),
    {
        let mut this = self;
        this.device_id = Some(device_id.to_string());
        this
    }

    /// Overrides the worker thread count hint; the default is 8.
    pub fn with_num_threads(self, num_threads: usize) -> (r: Self)
        ensures
            r@ == (ProviderRecord { num_threads: num_threads as nat, ..self@ }),
            r@ == apply_op(self@, SetterOp::NumThreads(num_threads as nat)),
    {
        let mut this = self;
        this.num_threads = num_threads;
        this
    }

    /// Sets the directory in which compiled-model blobs are cached,
    /// enabling model caching.  The path is not validated here: the
    /// caller is responsible for it existing and being writable.
    pub fn with_cache_dir(self, dir: &str) -> (r: Self)
        ensures
            r@ == (ProviderRecord { cache_dir: Some(dir@), ..self@ }),
            r@ == apply_op(self@, SetterOp::CacheDir(dir@)),
    {
        let mut this = self;
        this.cache_dir = Some(dir.to_string());
        this
    }

    /// Stores an externally owned OpenCL context handle.  No ownership
    /// is taken and the handle is never checked against null: its value
    /// is forwarded verbatim at registration.
    pub fn with_opencl_context(self, context: ContextHandle) -> (r: Self)
        ensures
            r@ == (ProviderRecord { context: context.addr as nat, ..self@ }),
            r@ == apply_op(self@, SetterOp::OpenCLContext(context.addr as nat)),
    {
        let mut this = self;
        this.context = context;
        this
    }

    /// Enables OpenCL queue throttling for GPU devices.  There is no
    /// setter that disables the flag again: within one record's lifetime
    /// the flags only ever go from off to on.
    pub fn with_opencl_throttling(self) -> (r: Self)
        ensures
            r@ == (ProviderRecord { enable_opencl_throttling: true, ..self@ }),
            r@ == apply_op(self@, SetterOp::OpenCLThrottling),
    {
        let mut this = self;
        this.enable_opencl_throttling = true;
        this
    }

    /// Enables support for models whose input shapes are only known at
    /// inference time.  Like the other flags, enabling is one-way.
    pub fn with_dynamic_shapes(self) -> (r: Self)
        ensures
            r@ == (ProviderRecord { enable_dynamic_shapes: true, ..self@ }),
            r@ == apply_op(self@, SetterOp::DynamicShapes),
    {
        let mut this = self;
        this.enable_dynamic_shapes = true;
        this
    }

    /// Enables fast compilation on VPU devices.  Like the other flags,
    /// enabling is one-way.
    pub fn with_vpu_fast_compile(self) -> (r: Self)
        ensures
            r@ == (ProviderRecord { enable_vpu_fast_compile: true, ..self@ }),
            r@ == apply_op(self@, SetterOp::VpuFastCompile),
    {
        let mut this = self;
        this.enable_vpu_fast_compile = true;
        this
    }
}

impl Default for OpenVINOExecutionProvider {
    /// An unconfigured builder: every field at its documented default.
    fn default() -> (r: Self)
        ensures
            r@ == default_record(),
    {
        OpenVINOExecutionProvider {
            device_type: None,
            device_id: None,
            num_threads: 8,
            cache_dir: None,
            context: ContextHandle { addr: 0 },
            enable_opencl_throttling: false,
            enable_dynamic_shapes: false,
            enable_vpu_fast_compile: false,
        }
    }
}

/// The display name of this provider, used in diagnostics and carried
/// by registration errors.
pub open spec fn provider_name() -> Seq<char> {
    "OpenVINOExecutionProvider"@
}

impl OpenVINOExecutionProvider {
    /// The provider's stable display name.
    pub fn as_str(&self) -> (r: &'static str)
        ensures
            r@ == provider_name(),
    {
        "OpenVINOExecutionProvider"
    }

    /// Wraps the finished record into the provider handle the dispatch
    /// layer consumes.  The wrap is pure: the embedded record is the
    /// record this builder holds, field for field.
    pub fn build(self) -> (r: ExecutionProviderDispatch)
        ensures
            r == ExecutionProviderDispatch::OpenVINO(self),
    {
        ExecutionProviderDispatch::from(self)
    }
}

/// Handle over the closed set of execution-provider kinds, so that
/// downstream dispatch code can treat providers polymorphically.  This
/// fragment of the binding layer supports one kind.
pub enum ExecutionProviderDispatch {
    OpenVINO(OpenVINOExecutionProvider),
}

impl From<OpenVINOExecutionProvider> for ExecutionProviderDispatch {
    fn from(value: OpenVINOExecutionProvider) -> (r: Self) {
        ExecutionProviderDispatch::OpenVINO(value)
    }
}

impl vstd::std_specs::convert::FromSpecImpl<OpenVINOExecutionProvider> for ExecutionProviderDispatch {
    open spec fn obeys_from_spec() -> bool {
        true
    }

    open spec fn from_spec(v: OpenVINOExecutionProvider) -> Self {
        ExecutionProviderDispatch::OpenVINO(v)
    }
}

/// One configuration step: each variant stands for one setter call, with
/// the value that call carries.  A chain of setter calls is a sequence
/// of these steps, and each setter's postcondition states that the
/// builder it returns views to `apply_op` of the step it performs.
pub ghost enum SetterOp {
    DeviceType(Seq<char>),
    DeviceId(Seq<char>),
    NumThreads(nat),
    CacheDir(Seq<char>),
    OpenCLContext(nat),
    OpenCLThrottling,
    DynamicShapes,
    VpuFastCompile,
}

/// The record after one configuration step: exactly one field updated.
pub open spec fn apply_op(r: ProviderRecord, op: SetterOp) -> ProviderRecord {
    match op {
        SetterOp::DeviceType(s) => ProviderRecord { device_type: Some(s), ..r },
        SetterOp::DeviceId(s) => ProviderRecord { device_id: Some(s), ..r },
        SetterOp::NumThreads(n) => ProviderRecord { num_threads: n, ..r },
        SetterOp::CacheDir(s) => ProviderRecord { cache_dir: Some(s), ..r },
        SetterOp::OpenCLContext(a) => ProviderRecord { context: a, ..r },
        SetterOp::OpenCLThrottling => ProviderRecord { enable_opencl_throttling: true, ..r },
        SetterOp::DynamicShapes => ProviderRecord { enable_dynamic_shapes: true, ..r },
        SetterOp::VpuFastCompile => ProviderRecord { enable_vpu_fast_compile: true, ..r },
    }
}

/// The record after a whole chain of configuration steps, applied left
/// to right.
pub open spec fn apply_ops(r: ProviderRecord, ops: Seq<SetterOp>) -> ProviderRecord
    decreases ops.len(),
{
    if ops.len() == 0 {
        r
    } else {
        apply_op(apply_ops(r, ops.drop_last()), ops.last())
    }
}

/// The last device type a chain sets, or `dflt` if it never sets one.
pub open spec fn last_device_type(ops: Seq<SetterOp>, dflt: Option<Seq<char>>) -> Option<Seq<char>>
    decreases ops.len(),
{
    if ops.len() == 0 {
        dflt
    } else {
        match ops.last() {
            SetterOp::DeviceType(s) => Some(s),
            _ => last_device_type(ops.drop_last(), dflt),
        }
    }
}

/// The last device id a chain sets, or `dflt` if it never sets one.
pub open spec fn last_device_id(ops: Seq<SetterOp>, dflt: Option<Seq<char>>) -> Option<Seq<char>>
    decreases ops.len(),
{
    if ops.len() == 0 {
        dflt
    } else {
        match ops.last() {
            SetterOp::DeviceId(s) => Some(s),
            _ => last_device_id(ops.drop_last(), dflt),
        }
    }
}

/// The last thread count a chain sets, or `dflt` if it never sets one.
pub open spec fn last_num_threads(ops: Seq<SetterOp>, dflt: nat) -> nat
    decreases ops.len(),
{
    if ops.len() == 0 {
        dflt
    } else {
        match ops.last() {
            SetterOp::NumThreads(n) => n,
            _ => last_num_threads(ops.drop_last(), dflt),
        }
    }
}

/// The last cache directory a chain sets, or `dflt` if it never sets one.
pub open spec fn last_cache_dir(ops: Seq<SetterOp>, dflt: Option<Seq<char>>) -> Option<Seq<char>>
    decreases ops.len(),
{
    if ops.len() == 0 {
        dflt
    } else {
        match ops.last() {
            SetterOp::CacheDir(s) => Some(s),
            _ => last_cache_dir(ops.drop_last(), dflt),
        }
    }
}

/// The last context address a chain sets, or `dflt` if it never sets one.
pub open spec fn last_context(ops: Seq<SetterOp>, dflt: nat) -> nat
    decreases ops.len(),
{
    if ops.len() == 0 {
        dflt
    } else {
        match ops.last() {
            SetterOp::OpenCLContext(a) => a,
            _ => last_context(ops.drop_last(), dflt),
        }
    }
}

/// The OpenCL throttling flag after a chain, starting from `dflt`:
/// `true` as soon as any step enables it, since no step disables it.
pub open spec fn last_throttling(ops: Seq<SetterOp>, dflt: bool) -> bool
    decreases ops.len(),
{
    if ops.len() == 0 {
        dflt
    } else {
        match ops.last() {
            SetterOp::OpenCLThrottling => true,
            _ => last_throttling(ops.drop_last(), dflt),
        }
    }
}

/// The dynamic-shapes flag after a chain, starting from `dflt`.
pub open spec fn last_dynamic_shapes(ops: Seq<SetterOp>, dflt: bool) -> bool
    decreases ops.len(),
{
    if ops.len() == 0 {
        dflt
    } else {
        match ops.last() {
            SetterOp::DynamicShapes => true,
            _ => last_dynamic_shapes(ops.drop_last(), dflt),
        }
    }
}

/// The VPU fast-compile flag after a chain, starting from `dflt`.
pub open spec fn last_vpu_fast_compile(ops: Seq<SetterOp>, dflt: bool) -> bool
    decreases ops.len(),
{
    if ops.len() == 0 {
        dflt
    } else {
        match ops.last() {
            SetterOp::VpuFastCompile => true,
            _ => last_vpu_fast_compile(ops.drop_last(), dflt),
        }
    }
}

/// Last write wins: after any chain of setter calls, each field of the
/// final record equals the last value the chain set for that field, and
/// a field no step touched keeps the value it started with.  With
/// `r0 == default_record()` this is exactly the builder guarantee: set
/// fields hold their last set value, untouched fields their documented
/// defaults.
pub proof fn lemma_last_write_wins(r0: ProviderRecord, ops: Seq<SetterOp>)
    ensures
        apply_ops(r0, ops).device_type == last_device_type(ops, r0.device_type),
        apply_ops(r0, ops).device_id == last_device_id(ops, r0.device_id),
        apply_ops(r0, ops).num_threads == last_num_threads(ops, r0.num_threads),
        apply_ops(r0, ops).cache_dir == last_cache_dir(ops, r0.cache_dir),
        apply_ops(r0, ops).context == last_context(ops, r0.context),
        apply_ops(r0, ops).enable_opencl_throttling == last_throttling(
            ops,
            r0.enable_opencl_throttling,
        ),
        apply_ops(r0, ops).enable_dynamic_shapes == last_dynamic_shapes(
            ops,
            r0.enable_dynamic_shapes,
        ),
        apply_ops(r0, ops).enable_vpu_fast_compile == last_vpu_fast_compile(
            ops,
            r0.enable_vpu_fast_compile,
        ),
    decreases ops.len(),
{
    if ops.len() > 0 {
        lemma_last_write_wins(r0, ops.drop_last());
    }
}

/// The builder guarantee for a fresh record: after any chain of setter
/// calls starting from the defaults, every field holds the last value
/// the chain set for it, and a field the chain never set holds its
/// documented default (no strings, eight threads, no context, all
/// flags off).
pub proof fn lemma_fresh_record_last_write_wins(ops: Seq<SetterOp>)
    ensures
        apply_ops(default_record(), ops).device_type == last_device_type(ops, None),
        apply_ops(default_record(), ops).device_id == last_device_id(ops, None),
        apply_ops(default_record(), ops).num_threads == last_num_threads(ops, 8),
        apply_ops(default_record(), ops).cache_dir == last_cache_dir(ops, None),
        apply_ops(default_record(), ops).context == last_context(ops, 0),
        apply_ops(default_record(), ops).enable_opencl_throttling == last_throttling(ops, false),
        apply_ops(default_record(), ops).enable_dynamic_shapes == last_dynamic_shapes(ops, false),
        apply_ops(default_record(), ops).enable_vpu_fast_compile == last_vpu_fast_compile(
            ops,
            false,
        ),
{
    lemma_last_write_wins(default_record(), ops);
}

/// A field no step of the chain touches keeps its starting value.  With
/// `r0 == default_record()` this says untouched fields retain their
/// documented defaults.
pub proof fn lemma_untouched_fields_keep_defaults(r0: ProviderRecord, ops: Seq<SetterOp>)
    ensures
        (forall|i: int| 0 <= i < ops.len() ==> !(#[trigger] ops[i] is DeviceType)) ==> apply_ops(
            r0,
            ops,
        ).device_type == r0.device_type,
        (forall|i: int| 0 <= i < ops.len() ==> !(#[trigger] ops[i] is DeviceId)) ==> apply_ops(
            r0,
            ops,
        ).device_id == r0.device_id,
        (forall|i: int| 0 <= i < ops.len() ==> !(#[trigger] ops[i] is NumThreads)) ==> apply_ops(
            r0,
            ops,
        ).num_threads == r0.num_threads,
        (forall|i: int| 0 <= i < ops.len() ==> !(#[trigger] ops[i] is CacheDir)) ==> apply_ops(
            r0,
            ops,
        ).cache_dir == r0.cache_dir,
        (forall|i: int| 0 <= i < ops.len() ==> !(#[trigger] ops[i] is OpenCLContext)) ==> apply_ops(
            r0,
            ops,
        ).context == r0.context,
        (forall|i: int| 0 <= i < ops.len() ==> !(#[trigger] ops[i] is OpenCLThrottling))
            ==> apply_ops(r0, ops).enable_opencl_throttling == r0.enable_opencl_throttling,
        (forall|i: int| 0 <= i < ops.len() ==> !(#[trigger] ops[i] is DynamicShapes)) ==> apply_ops(
            r0,
            ops,
        ).enable_dynamic_shapes == r0.enable_dynamic_shapes,
        (forall|i: int| 0 <= i < ops.len() ==> !(#[trigger] ops[i] is VpuFastCompile))
            ==> apply_ops(r0, ops).enable_vpu_fast_compile == r0.enable_vpu_fast_compile,
    decreases ops.len(),
{
    if ops.len() > 0 {
        lemma_untouched_fields_keep_defaults(r0, ops.drop_last());
        assert(forall|i: int|
            0 <= i < ops.len() - 1 ==> #[trigger] ops.drop_last()[i] == ops[i]);
    }
}

/// The boolean feature flags are monotonic within one record's
/// lifetime: once a flag is `true`, no further chain of setter calls
/// makes it `false` again, since no setter disables a flag.
pub proof fn lemma_flags_monotonic(r0: ProviderRecord, ops: Seq<SetterOp>)
    ensures
        r0.enable_opencl_throttling ==> apply_ops(r0, ops).enable_opencl_throttling,
        r0.enable_dynamic_shapes ==> apply_ops(r0, ops).enable_dynamic_shapes,
        r0.enable_vpu_fast_compile ==> apply_ops(r0, ops).enable_vpu_fast_compile,
    decreases ops.len(),
{
    if ops.len() > 0 {
        lemma_flags_monotonic(r0, ops.drop_last());
    }
}

} // verus!
