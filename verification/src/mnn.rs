//! The decisions around the MNN inference runtime: configuration, backend names
//! and codes, input validation of an engine, and the errors it reports.
//!
//! The native handles themselves live with the caller; the types here hold the
//! values that the decisions read (configuration, tensor shapes, status codes).
use vstd::prelude::*;
use vstd::slice::slice_to_vec;
use crate::text::{append_decimal_list, decimal_list};

verus! {

// ============== Error Types ==============

/// MNN related errors.
#[derive(Debug, Clone, PartialEq, Eq)]
pub enum MnnError {
    /// Invalid parameter
    InvalidParameter(String),
    /// Out of memory
    OutOfMemory,
    /// Runtime error
    RuntimeError(String),
    /// Unsupported operation
    Unsupported,
    /// Model loading failed
    ModelLoadFailed(String),
    /// Requested inference backend is not available in the linked MNN build
    BackendUnavailable(String),
    /// Null pointer error
    NullPointer,
    /// Shape mismatch
    ShapeMismatch { expected: Vec<usize>, got: Vec<usize> },
}

/// The human-readable message of an MNN error.
pub open spec fn mnn_error_message(e: MnnError) -> Seq<char> {
    match e {
        MnnError::InvalidParameter(msg) => "Invalid parameter: "@ + msg@,
        MnnError::OutOfMemory => "Out of memory"@,
        MnnError::RuntimeError(msg) => "Runtime error: "@ + msg@,
        MnnError::Unsupported => "Unsupported operation"@,
        MnnError::ModelLoadFailed(msg) => "Model loading failed: "@ + msg@,
        MnnError::BackendUnavailable(backend) => "Backend unavailable: "@ + backend@,
        MnnError::NullPointer => "Null pointer"@,
        MnnError::ShapeMismatch { expected, got } => "Shape mismatch: expected "@ + decimal_list(
            expected@,
        ) + ", got "@ + decimal_list(got@),
    }
}

impl MnnError {
    /// The message that describes the error.
    pub fn message(&self) -> (r: String)
        ensures
            r@ == mnn_error_message(*self),
    {
        match self {
            MnnError::InvalidParameter(msg) => {
                let mut m = String::from_str("Invalid parameter: ");
                m.append(msg.as_str());
                m
            },
            MnnError::OutOfMemory => String::from_str("Out of memory"),
            MnnError::RuntimeError(msg) => {
                let mut m = String::from_str("Runtime error: ");
                m.append(msg.as_str());
                m
            },
            MnnError::Unsupported => String::from_str("Unsupported operation"),
            MnnError::ModelLoadFailed(msg) => {
                let mut m = String::from_str("Model loading failed: ");
                m.append(msg.as_str());
                m
            },
            MnnError::BackendUnavailable(backend) => {
                let mut m = String::from_str("Backend unavailable: ");
                m.append(backend.as_str());
                m
            },
            MnnError::NullPointer => String::from_str("Null pointer"),
            MnnError::ShapeMismatch { expected, got } => {
                let mut m = String::from_str("Shape mismatch: expected ");
                append_decimal_list(&mut m, expected.as_slice());
                m.append(", got ");
                append_decimal_list(&mut m, got.as_slice());
                m
            },
        }
    }
}

// ============== Configuration Types ==============

/// Precision mode.
#[derive(Debug, Clone, Copy, PartialEq, Eq, Default)]
pub enum PrecisionMode {
    /// Normal precision
    #[default]
    Normal,
    /// Low precision (faster)
    Low,
    /// High precision (more accurate)
    High,
}

impl PrecisionMode {
    /// The numeric code the native runtime uses for this mode.
    pub fn code(self) -> (r: i32)
        ensures
            r == precision_code(self),
    {
        match self {
            PrecisionMode::Normal => 0,
            PrecisionMode::Low => 1,
            PrecisionMode::High => 2,
        }
    }
}

/// Native codes of the precision modes.
pub open spec fn precision_code(p: PrecisionMode) -> i32 {
    match p {
        PrecisionMode::Normal => 0,
        PrecisionMode::Low => 1,
        PrecisionMode::High => 2,
    }
}

/// Data format.
#[derive(Debug, Clone, Copy, PartialEq, Eq, Default)]
pub enum DataFormat {
    /// NCHW format (Caffe/PyTorch/ONNX)
    #[default]
    NCHW,
    /// NHWC format (TensorFlow)
    NHWC,
    /// Auto detect
    Auto,
}

/// Native codes of the data formats.
pub open spec fn data_format_code(f: DataFormat) -> i32 {
    match f {
        DataFormat::NCHW => 0,
        DataFormat::NHWC => 1,
        DataFormat::Auto => 2,
    }
}

impl DataFormat {
    /// The numeric code the native runtime uses for this format.
    pub fn code(self) -> (r: i32)
        ensures
            r == data_format_code(self),
    {
        match self {
            DataFormat::NCHW => 0,
            DataFormat::NHWC => 1,
            DataFormat::Auto => 2,
        }
    }
}

/// Inference backend type.
#[derive(Debug, Clone, Copy, PartialEq, Eq, Default)]
pub enum Backend {
    /// CPU backend
    #[default]
    CPU,
    /// Metal GPU (macOS/iOS)
    Metal,
    /// OpenCL GPU
    OpenCL,
    /// OpenGL GPU
    OpenGL,
    /// Vulkan GPU
    Vulkan,
    /// CUDA GPU (NVIDIA)
    CUDA,
    /// CoreML (macOS/iOS)
    CoreML,
}

/// The stable name of a backend.
pub open spec fn backend_name(b: Backend) -> Seq<char> {
    match b {
        Backend::CPU => "cpu"@,
        Backend::Metal => "metal"@,
        Backend::OpenCL => "opencl"@,
        Backend::OpenGL => "opengl"@,
        Backend::Vulkan => "vulkan"@,
        Backend::CUDA => "cuda"@,
        Backend::CoreML => "coreml"@,
    }
}

/// The MNN forward type of a backend.
pub open spec fn forward_type(b: Backend) -> i32 {
    match b {
        Backend::CPU => 0,
        Backend::Metal => 1,
        Backend::CUDA => 2,
        Backend::OpenCL => 3,
        Backend::CoreML => 5,
        Backend::OpenGL => 6,
        Backend::Vulkan => 7,
    }
}

impl Backend {
    /// Stable backend name used in errors, logs, and command-line options.
    pub fn as_str(self) -> (r: &'static str)
        ensures
            r@ == backend_name(self),
    {
        match self {
            Backend::CPU => "cpu",
            Backend::Metal => "metal",
            Backend::OpenCL => "opencl",
            Backend::OpenGL => "opengl",
            Backend::Vulkan => "vulkan",
            Backend::CUDA => "cuda",
            Backend::CoreML => "coreml",
        }
    }

    /// Turns the native runtime's answer to "is this backend registered?" into
    /// a result: an unavailable backend is reported by its name.
    pub fn ensure_available(self, registered: bool) -> (r: Result<(), MnnError>)
        ensures
            registered ==> r is Ok,
            !registered ==> (r matches Err(MnnError::BackendUnavailable(name)) && name@
                == backend_name(self)),
    {
        if registered {
            Ok(())
        } else {
            Err(MnnError::BackendUnavailable(String::from_str(self.as_str())))
        }
    }

    /// The MNN forward type (`MNNForwardType`) of this backend.
    pub fn to_forward_type(self) -> (r: i32)
        ensures
            r == forward_type(self),
    {
        match self {
            Backend::CPU => 0,
            Backend::Metal => 1,
            Backend::CUDA => 2,
            Backend::OpenCL => 3,
            Backend::CoreML => 5,
            Backend::OpenGL => 6,
            Backend::Vulkan => 7,
        }
    }
}

/// Inference configuration.
#[derive(Debug, Clone)]
pub struct InferenceConfig {
    /// Thread count (0 means auto, default is 4)
    pub thread_count: i32,
    /// Precision mode
    pub precision_mode: PrecisionMode,
    /// Whether to use cache
    pub use_cache: bool,
    /// Data format
    pub data_format: DataFormat,
    /// Inference backend
    pub backend: Backend,
}

/// The configuration used when none is given: four CPU threads, normal
/// precision, no cache, NCHW data.
pub open spec fn default_inference_config() -> InferenceConfig {
    InferenceConfig {
        thread_count: 4,
        precision_mode: PrecisionMode::Normal,
        use_cache: false,
        data_format: DataFormat::NCHW,
        backend: Backend::CPU,
    }
}

impl Default for InferenceConfig {
    fn default() -> (r: Self)
        ensures
            r == default_inference_config(),
    {
        InferenceConfig {
            thread_count: 4,
            precision_mode: PrecisionMode::Normal,
            use_cache: false,
            data_format: DataFormat::NCHW,
            backend: Backend::CPU,
        }
    }
}

/// The configuration in the form the native runtime takes it.
#[derive(Debug, Clone, Copy, PartialEq, Eq)]
pub struct NativeConfig {
    pub thread_count: i32,
    pub precision_mode: i32,
    pub use_cache: bool,
    pub data_format: i32,
    pub forward_type: i32,
}

/// The native form of a configuration.
pub open spec fn native_config_of(c: InferenceConfig) -> NativeConfig {
    NativeConfig {
        thread_count: c.thread_count,
        precision_mode: precision_code(c.precision_mode),
        use_cache: c.use_cache,
        data_format: data_format_code(c.data_format),
        forward_type: forward_type(c.backend),
    }
}

impl InferenceConfig {
    /// Create new inference configuration
    pub fn new() -> (r: Self)
        ensures
            r == default_inference_config(),
    {
        Self::default()
    }

    /// Set thread count
    pub fn with_threads(self, threads: i32) -> (r: Self)
        ensures
            r == (InferenceConfig { thread_count: threads, ..self }),
    {
        let mut s = self;
        s.thread_count = threads;
        s
    }

    /// Set precision mode
    pub fn with_precision(self, precision: PrecisionMode) -> (r: Self)
        ensures
            r == (InferenceConfig { precision_mode: precision, ..self }),
    {
        let mut s = self;
        s.precision_mode = precision;
        s
    }

    /// Set backend
    pub fn with_backend(self, backend: Backend) -> (r: Self)
        ensures
            r == (InferenceConfig { backend: backend, ..self }),
    {
        let mut s = self;
        s.backend = backend;
        s
    }

    /// Set data format
    pub fn with_data_format(self, format: DataFormat) -> (r: Self)
        ensures
            r == (InferenceConfig { data_format: format, ..self }),
    {
        let mut s = self;
        s.data_format = format;
        s
    }

    /// The configuration as the native runtime takes it.
    pub fn to_ffi(&self) -> (r: NativeConfig)
        ensures
            r == native_config_of(*self),
    {
        NativeConfig {
            thread_count: self.thread_count,
            precision_mode: self.precision_mode.code(),
            use_cache: self.use_cache,
            data_format: self.data_format.code(),
            forward_type: self.backend.to_forward_type(),
        }
    }
}

/// The configuration that an engine is created with: the given one, or the default.
pub open spec fn resolved_config(config: Option<InferenceConfig>) -> InferenceConfig {
    match config {
        Some(c) => c,
        None => default_inference_config(),
    }
}

/// The configuration an engine is created with: the given one, or the default.
pub fn resolve_config(config: Option<InferenceConfig>) -> (r: InferenceConfig)
    ensures
        r == resolved_config(config),
{
    match config {
        Some(c) => c,
        None => InferenceConfig::default(),
    }
}

/// A model buffer must hold at least one byte.
pub fn check_model_buffer(model_len: usize) -> (r: Result<(), MnnError>)
    ensures
        model_len > 0 ==> r is Ok,
        model_len == 0 ==> (r matches Err(MnnError::InvalidParameter(msg)) && msg@
            == "Model data is empty"@),
{
    if model_len == 0 {
        return Err(MnnError::InvalidParameter(String::from_str("Model data is empty")));
    }
    Ok(())
}

// ============== Creating runtime objects ==============

/// The native configuration that an engine, a shared runtime or a session pool
/// is created with, once the linked runtime has answered whether it registered
/// the configured backend: an unregistered backend is refused by name and is
/// never replaced by another backend.
pub fn native_config_for(cfg: &InferenceConfig, backend_registered: bool) -> (r: Result<
    NativeConfig,
    MnnError,
>)
    ensures
        backend_registered ==> r == Ok::<NativeConfig, MnnError>(native_config_of(*cfg)),
        !backend_registered ==> (r matches Err(MnnError::BackendUnavailable(name)) && name@
            == backend_name(cfg.backend)),
{
    match cfg.backend.ensure_available(backend_registered) {
        Ok(()) => Ok(cfg.to_ffi()),
        Err(e) => Err(e),
    }
}

/// A runtime shared among several engines, described by the native
/// configuration that it is created with.
pub struct SharedRuntime {
    config: NativeConfig,
}

impl SharedRuntime {
    /// Create new shared runtime for a configuration, once the linked
    /// runtime has answered whether it registered the configured backend; an
    /// unregistered backend is refused by name.
    pub fn new(config: &InferenceConfig, backend_registered: bool) -> (r: Result<Self, MnnError>)
        ensures
            backend_registered ==> (r matches Ok(rt) && rt.native_config_view() == native_config_of(
                *config,
            )),
            !backend_registered ==> (r matches Err(MnnError::BackendUnavailable(name)) && name@
                == backend_name(config.backend)),
    {
        match native_config_for(config, backend_registered) {
            Ok(native) => Ok(SharedRuntime { config: native }),
            Err(e) => Err(e),
        }
    }

    /// The native configuration of the runtime.
    pub closed spec fn native_config_view(&self) -> NativeConfig {
        self.config
    }

    /// The native configuration that the runtime is created with.
    pub fn native_config(&self) -> (r: NativeConfig)
        ensures
            r == self.native_config_view(),
    {
        self.config
    }
}

/// The checks of engine creation from a model buffer before the native runtime
/// loads the model: an empty buffer is refused, a missing configuration is
/// replaced by the default, and the resolved backend must be registered
/// (`backend_registered` is the runtime's answer for that backend).
pub fn plan_engine_load(model_len: usize, config: Option<InferenceConfig>, backend_registered: bool) -> (r:
    Result<NativeConfig, MnnError>)
    ensures
        model_len == 0 ==> (r matches Err(MnnError::InvalidParameter(m)) && m@
            == "Model data is empty"@),
        model_len > 0 && backend_registered ==> r == Ok::<NativeConfig, MnnError>(
            native_config_of(resolved_config(config)),
        ),
        model_len > 0 && !backend_registered ==> (r matches Err(MnnError::BackendUnavailable(name))
            && name@ == backend_name(resolved_config(config).backend)),
{
    match check_model_buffer(model_len) {
        Ok(()) => {},
        Err(e) => {
            return Err(e);
        },
    }
    let cfg = resolve_config(config);
    native_config_for(&cfg, backend_registered)
}

/// The checks of session pool creation before the native runtime creates the
/// sessions: a pool needs at least one session, a missing configuration is
/// replaced by the default, and its backend must be registered.
pub fn plan_session_pool(pool_size: usize, config: Option<InferenceConfig>, backend_registered: bool) -> (r:
    Result<NativeConfig, MnnError>)
    ensures
        pool_size == 0 ==> (r matches Err(MnnError::InvalidParameter(m)) && m@
            == "Pool size cannot be 0"@),
        pool_size > 0 && backend_registered ==> r == Ok::<NativeConfig, MnnError>(
            native_config_of(resolved_config(config)),
        ),
        pool_size > 0 && !backend_registered ==> (r matches Err(MnnError::BackendUnavailable(name))
            && name@ == backend_name(resolved_config(config).backend)),
{
    match SessionPool::check_pool_size(pool_size) {
        Ok(()) => {},
        Err(e) => {
            return Err(e);
        },
    }
    let cfg = resolve_config(config);
    native_config_for(&cfg, backend_registered)
}

/// A native object that the runtime creates.
#[derive(Debug, Clone, Copy, PartialEq, Eq)]
pub enum NativeObject {
    Engine,
    SharedRuntime,
    SessionPool,
}

/// The result of asking the native runtime to create an object: failure to
/// load an engine is a model loading error, failure to create a shared runtime
/// or a session pool a runtime error.
pub fn creation_status(object: NativeObject, created: bool) -> (r: Result<(), MnnError>)
    ensures
        created ==> r is Ok,
        !created && object == NativeObject::Engine ==> (r matches Err(
            MnnError::ModelLoadFailed(m),
        ) && m@ == "Engine creation failed"@),
        !created && object == NativeObject::SharedRuntime ==> (r matches Err(
            MnnError::RuntimeError(m),
        ) && m@ == "Create shared runtime failed"@),
        !created && object == NativeObject::SessionPool ==> (r matches Err(
            MnnError::RuntimeError(m),
        ) && m@ == "Create session pool failed"@),
{
    if created {
        return Ok(());
    }
    match object {
        NativeObject::Engine => Err(MnnError::ModelLoadFailed(String::from_str("Engine creation failed"))),
        NativeObject::SharedRuntime => Err(
            MnnError::RuntimeError(String::from_str("Create shared runtime failed")),
        ),
        NativeObject::SessionPool => Err(
            MnnError::RuntimeError(String::from_str("Create session pool failed")),
        ),
    }
}

// ============== Native status codes ==============

/// The outcome that the native runtime reports for a call.
#[derive(Debug, Clone, Copy, PartialEq, Eq)]
pub enum NativeStatus {
    Success,
    InvalidParameter,
    OutOfMemory,
    Unsupported,
    Other,
}

/// Maps the status of a tensor-shaped inference call to its result: invalid
/// parameters and other failures carry the runtime's last error message.
pub fn inference_status(status: NativeStatus, last_error: String) -> (r: Result<(), MnnError>)
    ensures
        status == NativeStatus::Success ==> r is Ok,
        status == NativeStatus::InvalidParameter ==> (r matches Err(
            MnnError::InvalidParameter(m),
        ) && m@ == last_error@),
        status == NativeStatus::OutOfMemory ==> r == Err::<(), MnnError>(MnnError::OutOfMemory),
        status == NativeStatus::Unsupported ==> r == Err::<(), MnnError>(MnnError::Unsupported),
        status == NativeStatus::Other ==> (r matches Err(MnnError::RuntimeError(m)) && m@
            == last_error@),
{
    match status {
        NativeStatus::Success => Ok(()),
        NativeStatus::InvalidParameter => Err(MnnError::InvalidParameter(last_error)),
        NativeStatus::OutOfMemory => Err(MnnError::OutOfMemory),
        NativeStatus::Unsupported => Err(MnnError::Unsupported),
        NativeStatus::Other => Err(MnnError::RuntimeError(last_error)),
    }
}

/// Maps the status of a raw-slice inference call (`run_raw`,
/// `run_dynamic_raw`): these report an unsupported operation as a runtime error.
pub fn raw_inference_status(status: NativeStatus, last_error: String) -> (r: Result<(), MnnError>)
    ensures
        status == NativeStatus::Success ==> r is Ok,
        status == NativeStatus::InvalidParameter ==> (r matches Err(
            MnnError::InvalidParameter(m),
        ) && m@ == last_error@),
        status == NativeStatus::OutOfMemory ==> r == Err::<(), MnnError>(MnnError::OutOfMemory),
        (status == NativeStatus::Unsupported || status == NativeStatus::Other) ==> (r matches Err(
            MnnError::RuntimeError(m),
        ) && m@ == last_error@),
{
    match status {
        NativeStatus::Success => Ok(()),
        NativeStatus::InvalidParameter => Err(MnnError::InvalidParameter(last_error)),
        NativeStatus::OutOfMemory => Err(MnnError::OutOfMemory),
        _ => Err(MnnError::RuntimeError(last_error)),
    }
}

// ============== Shapes ==============

/// The number of elements of a tensor of the given shape.
pub open spec fn shape_product(s: Seq<usize>) -> int
    decreases s.len(),
{
    if s.len() == 0 {
        1
    } else {
        shape_product(s.drop_last()) * s.last()
    }
}

/// Every partial product of the dimensions, taken left to right, fits in `usize`.
pub open spec fn prefix_products_fit(s: Seq<usize>) -> bool {
    forall|i: int| 0 <= i <= s.len() ==> #[trigger] shape_product(s.take(i)) <= usize::MAX
}

/// The element count of a tensor shape, multiplying the dimensions left to
/// right; `None` when a partial product does not fit in `usize`.
pub fn element_count(shape: &[usize]) -> (r: Option<usize>)
    ensures
        r is Some <==> prefix_products_fit(shape@),
        r matches Some(n) ==> n == shape_product(shape@),
{
    let mut acc: usize = 1;
    let mut i: usize = 0;
    assert(shape@.take(0) =~= Seq::<usize>::empty());
    while i < shape.len()
        invariant
            i <= shape@.len(),
            acc == shape_product(shape@.take(i as int)),
            forall|k: int| 0 <= k <= i ==> #[trigger] shape_product(shape@.take(k)) <= usize::MAX,
        decreases shape@.len() - i,
    {
        assert(shape@.take(i + 1).drop_last() =~= shape@.take(i as int));
        match acc.checked_mul(shape[i]) {
            Some(next) => {
                acc = next;
                i = i + 1;
            },
            None => {
                assert(shape_product(shape@.take(i + 1)) > usize::MAX);
                return None;
            },
        }
    }
    assert(shape@.take(shape@.len() as int) =~= shape@);
    Some(acc)
}

/// Input and output tensor shapes of a loaded MNN model, and the checks an
/// inference call makes on its input before handing it to the native runtime.
pub struct InferenceEngine {
    input_shape: Vec<usize>,
    output_shape: Vec<usize>,
}

/// A model shape dimension that stands for a dynamic size (a negative size
/// read as an unsigned number is very large).
pub open spec fn is_dynamic_dim(d: usize) -> bool {
    d > 100000
}

/// Some dimension of the shape is dynamic.
pub open spec fn has_dynamic_dim(s: Seq<usize>) -> bool {
    exists|i: int| 0 <= i < s.len() && is_dynamic_dim(#[trigger] s[i])
}

/// The shape mismatch error for an input of shape `got` against `expected`.
pub open spec fn shape_mismatch(expected: Seq<usize>, got: Seq<usize>, e: MnnError) -> bool {
    e matches MnnError::ShapeMismatch { expected: x, got: g } && x@ == expected && g@ == got
}

fn any_dynamic(shape: &[usize]) -> (r: bool)
    ensures
        r == has_dynamic_dim(shape@),
{
    let mut i: usize = 0;
    while i < shape.len()
        invariant
            i <= shape@.len(),
            forall|j: int| 0 <= j < i ==> !is_dynamic_dim(#[trigger] shape@[j]),
        decreases shape@.len() - i,
    {
        if shape[i] > 100000 {
            return true;
        }
        i = i + 1;
    }
    false
}

fn same_shape(a: &[usize], b: &[usize]) -> (r: bool)
    ensures
        r == (a@ == b@),
{
    if a.len() != b.len() {
        return false;
    }
    let mut i: usize = 0;
    while i < a.len()
        invariant
            a@.len() == b@.len(),
            i <= a@.len(),
            forall|j: int| 0 <= j < i ==> a@[j] == b@[j],
        decreases a@.len() - i,
    {
        if a[i] != b[i] {
            return false;
        }
        i = i + 1;
    }
    assert(a@ =~= b@);
    true
}

/// The shape of a native tensor: the first `ndims` of the reported dimensions.
pub fn shape_from_native(dims: Vec<usize>, ndims: usize) -> (r: Vec<usize>)
    ensures
        ndims <= dims@.len() ==> r@ == dims@.take(ndims as int),
        ndims > dims@.len() ==> r@ == dims@,
{
    let mut dims = dims;
    dims.truncate(ndims);
    dims
}

impl InferenceEngine {
    /// Model shapes as reported by the native runtime.
    pub fn from_shapes(input_shape: Vec<usize>, output_shape: Vec<usize>) -> (r: Self)
        ensures
            r.input_shape_view() == input_shape@,
            r.output_shape_view() == output_shape@,
    {
        InferenceEngine { input_shape, output_shape }
    }

    /// The model's input shape.
    pub closed spec fn input_shape_view(&self) -> Seq<usize> {
        self.input_shape@
    }

    /// The model's output shape.
    pub closed spec fn output_shape_view(&self) -> Seq<usize> {
        self.output_shape@
    }

    /// Get input tensor shape
    pub fn input_shape(&self) -> (r: &[usize])
        ensures
            r@ == self.input_shape_view(),
    {
        self.input_shape.as_slice()
    }

    /// Get output tensor shape
    pub fn output_shape(&self) -> (r: &[usize])
        ensures
            r@ == self.output_shape_view(),
    {
        self.output_shape.as_slice()
    }

    /// Check if model has dynamic shape (contains -1 dimension)
    pub fn has_dynamic_shape(&self) -> (r: bool)
        ensures
            r == (has_dynamic_dim(self.input_shape_view()) || has_dynamic_dim(
                self.output_shape_view(),
            )),
    {
        any_dynamic(self.input_shape.as_slice()) || any_dynamic(self.output_shape.as_slice())
    }

    /// A fixed-shape inference accepts only an input of exactly the model's
    /// input shape; otherwise it reports both shapes.
    pub fn check_input_shape(&self, shape: &[usize]) -> (r: Result<(), MnnError>)
        ensures
            shape@ == self.input_shape_view() ==> r is Ok,
            shape@ != self.input_shape_view() ==> (r matches Err(e) && shape_mismatch(
                self.input_shape_view(),
                shape@,
                e,
            )),
    {
        if !same_shape(shape, self.input_shape.as_slice()) {
            return Err(
                MnnError::ShapeMismatch {
                    expected: slice_to_vec(self.input_shape.as_slice()),
                    got: slice_to_vec(shape),
                },
            );
        }
        Ok(())
    }
}

/// The count-mismatch error for a raw buffer of `got` elements where
/// `expected` are needed.
pub open spec fn count_mismatch(expected: int, got: int, e: MnnError) -> bool {
    e matches MnnError::ShapeMismatch { expected: x, got: g } && x@ == seq![expected as usize]
        && g@ == seq![got as usize]
}

impl InferenceEngine {
    /// A raw-slice inference needs an input buffer of exactly as many
    /// elements as the input shape holds, and likewise an output buffer; the
    /// input is checked first.
    pub fn check_raw_buffers(&self, input_len: usize, output_len: usize) -> (r: Result<
        (),
        MnnError,
    >)
        requires
            prefix_products_fit(self.input_shape_view()),
            prefix_products_fit(self.output_shape_view()),
        ensures
            r is Ok <==> (input_len == shape_product(self.input_shape_view()) && output_len
                == shape_product(self.output_shape_view())),
            input_len != shape_product(self.input_shape_view()) ==> (r matches Err(e)
                && count_mismatch(shape_product(self.input_shape_view()), input_len as int, e)),
            (input_len == shape_product(self.input_shape_view()) && output_len != shape_product(
                self.output_shape_view(),
            )) ==> (r matches Err(e) && count_mismatch(
                shape_product(self.output_shape_view()),
                output_len as int,
                e,
            )),
    {
        let expected_input = match element_count(self.input_shape.as_slice()) {
            Some(n) => n,
            None => 0,
        };
        let expected_output = match element_count(self.output_shape.as_slice()) {
            Some(n) => n,
            None => 0,
        };
        if input_len != expected_input {
            let expected = vec![expected_input];
            let got = vec![input_len];
            assert(expected@ =~= seq![expected_input]);
            assert(got@ =~= seq![input_len]);
            return Err(MnnError::ShapeMismatch { expected, got });
        }
        if output_len != expected_output {
            let expected = vec![expected_output];
            let got = vec![output_len];
            assert(expected@ =~= seq![expected_output]);
            assert(got@ =~= seq![output_len]);
            return Err(MnnError::ShapeMismatch { expected, got });
        }
        Ok(())
    }
}

/// Tensor data is handed to the native runtime only when it is laid out
/// contiguously in memory.
pub fn check_contiguous(is_contiguous: bool) -> (r: Result<(), MnnError>)
    ensures
        is_contiguous ==> r is Ok,
        !is_contiguous ==> (r matches Err(MnnError::InvalidParameter(m)) && m@
            == "Input data must be contiguous"@),
{
    if !is_contiguous {
        return Err(MnnError::InvalidParameter(String::from_str("Input data must be contiguous")));
    }
    Ok(())
}

/// The output shape of a dynamic-shape inference: the first `ndims` of the
/// dimensions the native runtime wrote, which cannot be more than it was given
/// room for.
pub fn dynamic_output_shape(dims: &[usize], ndims: usize) -> (r: Vec<usize>)
    requires
        ndims <= dims@.len(),
    ensures
        r@ == dims@.take(ndims as int),
{
    let mut out: Vec<usize> = Vec::new();
    let mut i: usize = 0;
    while i < ndims
        invariant
            i <= ndims <= dims@.len(),
            out@ == dims@.take(i as int),
        decreases ndims - i,
    {
        out.push(dims[i]);
        proof {
            assert(dims@.take(i + 1) =~= dims@.take(i as int).push(dims@[i as int]));
        }
        i = i + 1;
    }
    out
}

/// The shape that the native runtime reports for the model input or output:
/// the first `ndims` dimensions when the query succeeded, an error naming
/// which shape could not be read otherwise.
pub fn native_shape(query_succeeded: bool, dims: Vec<usize>, ndims: usize, is_input: bool) -> (r:
    Result<Vec<usize>, MnnError>)
    ensures
        query_succeeded && ndims <= dims@.len() ==> (r matches Ok(s) && s@ == dims@.take(
            ndims as int,
        )),
        query_succeeded && ndims > dims@.len() ==> (r matches Ok(s) && s@ == dims@),
        !query_succeeded && is_input ==> (r matches Err(MnnError::RuntimeError(m)) && m@
            == "Failed to get input shape"@),
        !query_succeeded && !is_input ==> (r matches Err(MnnError::RuntimeError(m)) && m@
            == "Failed to get output shape"@),
{
    if !query_succeeded {
        if is_input {
            return Err(MnnError::RuntimeError(String::from_str("Failed to get input shape")));
        } else {
            return Err(MnnError::RuntimeError(String::from_str("Failed to get output shape")));
        }
    }
    Ok(shape_from_native(dims, ndims))
}

/// Input and output shapes of a pool of inference sessions created for one engine.
pub struct SessionPool {
    input_shape: Vec<usize>,
    output_shape: Vec<usize>,
}

impl SessionPool {
    /// A pool must hold at least one session.
    pub fn check_pool_size(pool_size: usize) -> (r: Result<(), MnnError>)
        ensures
            pool_size > 0 ==> r is Ok,
            pool_size == 0 ==> (r matches Err(MnnError::InvalidParameter(m)) && m@
                == "Pool size cannot be 0"@),
    {
        if pool_size == 0 {
            return Err(MnnError::InvalidParameter(String::from_str("Pool size cannot be 0")));
        }
        Ok(())
    }

    /// The pool serves the same model as `engine`, with its shapes.
    pub fn for_engine(engine: &InferenceEngine) -> (r: Self)
        ensures
            r.input_shape_view() == engine.input_shape_view(),
            r.output_shape_view() == engine.output_shape_view(),
    {
        SessionPool {
            input_shape: slice_to_vec(engine.input_shape.as_slice()),
            output_shape: slice_to_vec(engine.output_shape.as_slice()),
        }
    }

    /// The model's input shape.
    pub closed spec fn input_shape_view(&self) -> Seq<usize> {
        self.input_shape@
    }

    /// The model's output shape.
    pub closed spec fn output_shape_view(&self) -> Seq<usize> {
        self.output_shape@
    }

    /// The model's output shape.
    pub fn output_shape(&self) -> (r: &[usize])
        ensures
            r@ == self.output_shape_view(),
    {
        self.output_shape.as_slice()
    }

    /// A pooled inference accepts only an input of exactly the model's input shape.
    pub fn check_input_shape(&self, shape: &[usize]) -> (r: Result<(), MnnError>)
        ensures
            shape@ == self.input_shape_view() ==> r is Ok,
            shape@ != self.input_shape_view() ==> (r matches Err(e) && shape_mismatch(
                self.input_shape_view(),
                shape@,
                e,
            )),
    {
        if !same_shape(shape, self.input_shape.as_slice()) {
            return Err(
                MnnError::ShapeMismatch {
                    expected: slice_to_vec(self.input_shape.as_slice()),
                    got: slice_to_vec(shape),
                },
            );
        }
        Ok(())
    }

    /// Any failure of a pooled inference is reported as one runtime error.
    pub fn run_status(status: NativeStatus) -> (r: Result<(), MnnError>)
        ensures
            status == NativeStatus::Success ==> r is Ok,
            status != NativeStatus::Success ==> (r matches Err(MnnError::RuntimeError(m)) && m@
                == "Session pool inference failed"@),
    {
        match status {
            NativeStatus::Success => Ok(()),
            _ => Err(MnnError::RuntimeError(String::from_str("Session pool inference failed"))),
        }
    }
}

// ============== Laws ==============

/// Distinct backends have distinct names and distinct native forward types,
/// so a name or a code identifies the backend.
pub proof fn law_backend_identifiers_distinct(a: Backend, b: Backend)
    requires
        a != b,
    ensures
        backend_name(a) != backend_name(b),
        forward_type(a) != forward_type(b),
{
    reveal_strlit("cpu");
    reveal_strlit("metal");
    reveal_strlit("opencl");
    reveal_strlit("opengl");
    reveal_strlit("vulkan");
    reveal_strlit("cuda");
    reveal_strlit("coreml");
    assert("cpu"@.len() == 3);
    assert("cuda"@.len() == 4);
    assert("metal"@.len() == 5);
    assert("opencl"@.len() == 6);
    assert("opengl"@.len() == 6);
    assert("vulkan"@.len() == 6);
    assert("coreml"@.len() == 6);
    assert("opencl"@[4] != "opengl"@[4]);
    assert("opencl"@[0] != "vulkan"@[0]);
    assert("opencl"@[0] != "coreml"@[0]);
    assert("opengl"@[0] != "vulkan"@[0]);
    assert("opengl"@[0] != "coreml"@[0]);
    assert("vulkan"@[0] != "coreml"@[0]);
}

/// An unavailable backend is reported with a message that names it:
/// `Backend unavailable: <name>`.
pub proof fn law_unavailable_backend_message(b: Backend, e: MnnError)
    requires
        e matches MnnError::BackendUnavailable(name) && name@ == backend_name(b),
    ensures
        mnn_error_message(e) == "Backend unavailable: "@ + backend_name(b),
{
}

/// The native configuration keeps the thread count and cache setting and
/// encodes precision, data format and backend one-to-one.
pub proof fn law_native_config_faithful(a: InferenceConfig, b: InferenceConfig)
    requires
        native_config_of(a) == native_config_of(b),
    ensures
        a == b,
{
}

/// The native configuration carries the codes that the MNN runtime defines:
/// precision normal 0, low 1, high 2; data format NCHW 0, NHWC 1, auto 2; and
/// the runtime's forward type of the backend (CPU 0, Metal 1, CUDA 2, OpenCL 3,
/// CoreML through the NN forward type 5, OpenGL 6, Vulkan 7).
pub proof fn law_native_codes_match_runtime(c: InferenceConfig)
    ensures
        c.precision_mode == PrecisionMode::Normal ==> native_config_of(c).precision_mode == 0,
        c.precision_mode == PrecisionMode::Low ==> native_config_of(c).precision_mode == 1,
        c.precision_mode == PrecisionMode::High ==> native_config_of(c).precision_mode == 2,
        c.data_format == DataFormat::NCHW ==> native_config_of(c).data_format == 0,
        c.data_format == DataFormat::NHWC ==> native_config_of(c).data_format == 1,
        c.data_format == DataFormat::Auto ==> native_config_of(c).data_format == 2,
        c.backend == Backend::CPU ==> native_config_of(c).forward_type == 0,
        c.backend == Backend::Metal ==> native_config_of(c).forward_type == 1,
        c.backend == Backend::CUDA ==> native_config_of(c).forward_type == 2,
        c.backend == Backend::OpenCL ==> native_config_of(c).forward_type == 3,
        c.backend == Backend::CoreML ==> native_config_of(c).forward_type == 5,
        c.backend == Backend::OpenGL ==> native_config_of(c).forward_type == 6,
        c.backend == Backend::Vulkan ==> native_config_of(c).forward_type == 7,
        native_config_of(c).thread_count == c.thread_count,
        native_config_of(c).use_cache == c.use_cache,
{
}

} // verus!
