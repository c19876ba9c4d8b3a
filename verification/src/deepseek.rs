//! The DeepSeek-OCR backend: its options, and the precision and the pooled engine that a call uses.
//!
//! Calls with identical engine configuration share an engine instance, so that weights are loaded
//! once: see [`EnginePoolKey`].

use crate::error::{ErrorText, XbergError};
use crate::text::{decimal, join, text_of, texts_of, to_decimal};
use vstd::prelude::*;
use vstd::std_specs::cmp::PartialEqSpec;
use vstd::string::StringExecFns;

verus! {

/// A path in the notation of the platform.
#[verifier::external_type_specification]
#[verifier::external_body]
pub struct ExPathBuf(std::path::PathBuf);

/// The text that a path holds.
pub uninterp spec fn path_text(path: std::path::PathBuf) -> Seq<char>;

/// `std::path::PathBuf::from` of a string: the path holds a copy of that text.
#[verifier::external_body]
fn path_from(text: &str) -> (r: std::path::PathBuf)
    ensures
        path_text(r) == text@,
{
    std::path::PathBuf::from(text)
}

/// The name of the backend.
pub const BACKEND_NAME: &'static str = "candle-deepseek-ocr";

/// The repository that weights are downloaded from unless the options name another.
pub const DEFAULT_MODEL_ID: &'static str = "deepseek-ai/DeepSeek-OCR";

/// The model version used unless the options name another.
pub const DEFAULT_VERSION: u32 = 2;

/// A compute device that inference runs on.
#[derive(Clone, Copy, Debug, PartialEq, Eq, Structural)]
pub enum Device {
    Cpu,
    Cuda,
    Metal,
}

/// A floating-point precision.
#[derive(Clone, Copy, Debug, PartialEq, Eq, Hash, Structural)]
pub enum DType {
    F32,
    F16,
    BF16,
}

/// The compute device asked for.
#[derive(Clone, Copy, Debug, PartialEq, Eq, Hash, Structural)]
pub enum DevicePreference {
    Auto,
    Cpu,
    Cuda,
    Metal,
}

/// The precision asked for in the options of the backend.
#[derive(Clone, Copy, Debug, PartialEq, Eq, Structural)]
pub enum CandleDeepseekOcrDtype {
    Auto,
    F32,
    F16,
    Bf16,
}

/// The precision that suits a device.
pub open spec fn dtype_of(device: Device) -> DType {
    match device {
        Device::Cuda => DType::BF16,
        Device::Metal => DType::F16,
        Device::Cpu => DType::F32,
    }
}

/// Pick the floating-point precision that matches the actual compute device.
///
/// A BF16 checkpoint loaded as F32 doubles the weight footprint for no gain in accuracy. Metal
/// covers BF16 incompletely, so F16 is the safe default there; the CPU stays with F32 for broad
/// portability.
pub fn default_dtype_for(device: &Device) -> (r: DType)
    ensures
        r == dtype_of(*device),
        device is Cpu ==> r is F32,
        device is Cuda ==> r is BF16,
        device is Metal ==> r is F16,
{
    match device {
        Device::Cuda => DType::BF16,
        Device::Metal => DType::F16,
        Device::Cpu => DType::F32,
    }
}

/// The precision that a request names; none where it leaves the choice to the device.
pub open spec fn dtype_named(value: Option<CandleDeepseekOcrDtype>) -> Option<DType> {
    match value {
        None => None,
        Some(CandleDeepseekOcrDtype::Auto) => None,
        Some(CandleDeepseekOcrDtype::F32) => Some(DType::F32),
        Some(CandleDeepseekOcrDtype::F16) => Some(DType::F16),
        Some(CandleDeepseekOcrDtype::Bf16) => Some(DType::BF16),
    }
}

/// Map the precision asked for in the options to a concrete one. `Auto` leaves the choice to
/// [`default_dtype_for`], so it gives `None`.
pub fn requested_dtype(value: Option<CandleDeepseekOcrDtype>) -> (r: Option<DType>)
    ensures
        r == dtype_named(value),
        value is None || value == Some(CandleDeepseekOcrDtype::Auto) <==> r is None,
        value == Some(CandleDeepseekOcrDtype::F32) <==> r == Some(DType::F32),
        value == Some(CandleDeepseekOcrDtype::F16) <==> r == Some(DType::F16),
        value == Some(CandleDeepseekOcrDtype::Bf16) <==> r == Some(DType::BF16),
{
    match value {
        None => None,
        Some(CandleDeepseekOcrDtype::Auto) => None,
        Some(CandleDeepseekOcrDtype::F32) => Some(DType::F32),
        Some(CandleDeepseekOcrDtype::F16) => Some(DType::F16),
        Some(CandleDeepseekOcrDtype::Bf16) => Some(DType::BF16),
    }
}

/// The characters of a path that are neither separators nor dots, ASCII letters in lower case.
pub open spec fn path_letters(text: Seq<char>) -> Seq<char> {
    text.filter(|c: char| c != '/' && c != '\\' && c != '.').map_values(
        |c: char|
            if 'A' <= c <= 'Z' {
                (c as u32 + 32) as char
            } else {
                c
            },
    )
}

/// Whether the platform takes two different texts as the same path.
pub uninterp spec fn compared_paths(first: Seq<char>, second: Seq<char>) -> bool;

/// Whether two texts are the same path. The same text always is; different ones at most where they
/// differ in separators, dots and the case of ASCII letters only.
pub open spec fn same_path(first: Seq<char>, second: Seq<char>) -> bool {
    first == second || (path_letters(first) == path_letters(second) && compared_paths(
        first,
        second,
    ))
}

/// `PartialEq` of `std::path::PathBuf`. On the platform that the crate is built for it depends on
/// what the paths hold alone, and paths that hold the same text are equal. Paths are compared by
/// their components, so that others are equal at most where they differ in separators and dots, or
/// in the letter of a drive by its case; which of those are is left to the platform.
#[verifier::external_body]
fn paths_equal(first: &std::path::PathBuf, second: &std::path::PathBuf) -> (r: bool)
    ensures
        r == (path_text(*first) == path_text(*second) || (path_letters(path_text(*first))
            == path_letters(path_text(*second)) && compared_paths(
            path_text(*first),
            path_text(*second),
        ))),
{
    first == second
}

/// What tells pooled engines apart: calls with equal keys share an engine. Paths are compared as
/// `PathBuf` compares them.
#[derive(Debug, Eq, Hash)]
pub struct EnginePoolKey {
    pub preference: DevicePreference,
    pub dtype: DType,
    pub model_path: std::path::PathBuf,
    pub version: usize,
}

impl PartialEq for EnginePoolKey {
    fn eq(&self, other: &Self) -> (r: bool) {
        self.preference == other.preference && self.dtype == other.dtype && paths_equal(
            &self.model_path,
            &other.model_path,
        ) && self.version == other.version
    }
}

impl vstd::std_specs::cmp::PartialEqSpecImpl for EnginePoolKey {
    open spec fn obeys_eq_spec() -> bool {
        true
    }

    open spec fn eq_spec(&self, other: &Self) -> bool {
        &&& self.preference == other.preference
        &&& self.dtype == other.dtype
        &&& same_path(path_text(self.model_path), path_text(other.model_path))
        &&& self.version == other.version
    }
}

/// A key with its path as text.
pub struct KeyText {
    pub preference: DevicePreference,
    pub dtype: DType,
    pub model_path: Seq<char>,
    pub version: usize,
}

impl View for EnginePoolKey {
    type V = KeyText;

    open spec fn view(&self) -> KeyText {
        KeyText {
            preference: self.preference,
            dtype: self.dtype,
            model_path: path_text(self.model_path),
            version: self.version,
        }
    }
}

/// The key of an engine configuration.
pub open spec fn pool_key(
    preference: DevicePreference,
    dtype: DType,
    model_path: Seq<char>,
    version: usize,
) -> KeyText {
    KeyText { preference, dtype, model_path, version }
}

impl EnginePoolKey {
    /// The key of an engine configuration.
    pub fn new(
        preference: DevicePreference,
        dtype: DType,
        model_path: &str,
        version: usize,
    ) -> (r: Self)
        ensures
            r@ == pool_key(preference, dtype, model_path@, version),
            r.preference == preference,
            r.dtype == dtype,
            path_text(r.model_path) == model_path@,
            r.version == version,
    {
        EnginePoolKey { preference, dtype, model_path: path_from(model_path), version }
    }
}

/// The options of the backend, as they are written in the configuration.
///
/// A field that is not written is `None`.
#[derive(Debug)]
pub struct DeepseekOcrBackendOptions {
    /// A local model directory. It goes before `model_id`.
    pub model_path: Option<String>,
    /// The repository to download weights from.
    pub model_id: Option<String>,
    /// The immutable commit of a custom `model_id`.
    pub hf_revision: Option<String>,
    /// The root of the download cache.
    pub cache_dir: Option<String>,
    /// The compute device.
    pub device: Option<DevicePreference>,
    /// The model version.
    pub version: Option<u32>,
    /// The precision.
    pub dtype: Option<CandleDeepseekOcrDtype>,
}

/// The options of the backend, with their strings as text.
pub struct BackendOptionsText {
    pub model_path: Option<Seq<char>>,
    pub model_id: Option<Seq<char>>,
    pub hf_revision: Option<Seq<char>>,
    pub cache_dir: Option<Seq<char>>,
    pub device: Option<DevicePreference>,
    pub version: Option<u32>,
    pub dtype: Option<CandleDeepseekOcrDtype>,
}

impl View for DeepseekOcrBackendOptions {
    type V = BackendOptionsText;

    open spec fn view(&self) -> BackendOptionsText {
        BackendOptionsText {
            model_path: text_of(self.model_path),
            model_id: text_of(self.model_id),
            hf_revision: text_of(self.hf_revision),
            cache_dir: text_of(self.cache_dir),
            device: self.device,
            version: self.version,
            dtype: self.dtype,
        }
    }
}

/// Options that nobody wrote.
pub open spec fn no_options() -> BackendOptionsText {
    BackendOptionsText {
        model_path: None,
        model_id: None,
        hf_revision: None,
        cache_dir: None,
        device: None,
        version: None,
        dtype: None,
    }
}

impl Default for DeepseekOcrBackendOptions {
    fn default() -> (r: Self)
        ensures
            r@ == no_options(),
    {
        DeepseekOcrBackendOptions {
            model_path: None,
            model_id: None,
            hf_revision: None,
            cache_dir: None,
            device: None,
            version: None,
            dtype: None,
        }
    }
}

/// The value under which the configuration holds the options of the backend.
#[derive(Debug)]
pub enum BackendOptionsValue {
    /// Options that could be decoded.
    Decoded(DeepseekOcrBackendOptions),
    /// A value that is no options, and why.
    Malformed(String),
}

/// What the configuration says about optical character recognition, as far as this backend reads
/// it.
#[derive(Debug)]
pub struct OcrConfig {
    /// The options of the backend, where the configuration holds any.
    pub backend_options: Option<BackendOptionsValue>,
    /// The device on which the central acceleration settings place this call, where they do.
    pub acceleration_device: Option<DevicePreference>,
}

impl Default for OcrConfig {
    fn default() -> (r: Self)
        ensures
            r.backend_options is None,
            r.acceleration_device is None,
    {
        OcrConfig { backend_options: None, acceleration_device: None }
    }
}

/// The outcome of a step, with its error as text.
pub open spec fn error_text<T>(outcome: Result<T, XbergError>) -> Result<T, ErrorText> {
    match outcome {
        Ok(value) => Ok(value),
        Err(error) => Err(error@),
    }
}

/// The message about options that cannot be decoded.
pub open spec fn malformed_message(backend: Seq<char>, detail: Seq<char>) -> Seq<char> {
    "invalid "@ + backend + " backend_options: "@ + detail
}

/// The options that the configuration holds: none where it holds no value.
pub open spec fn decoded_options(
    value: Option<BackendOptionsValue>,
    backend: Seq<char>,
) -> Result<BackendOptionsText, ErrorText> {
    match value {
        None => Ok(no_options()),
        Some(BackendOptionsValue::Decoded(options)) => Ok(options@),
        Some(BackendOptionsValue::Malformed(detail)) => Err(
            ErrorText::Validation(malformed_message(backend, detail@)),
        ),
    }
}

/// The options that the configuration holds for a backend. A missing value stands for options
/// that nobody wrote; one that is no options is an error that names the backend.
pub fn parse_backend_options(value: &Option<BackendOptionsValue>, backend: &str) -> (r: Result<
    DeepseekOcrBackendOptions,
    XbergError,
>)
    ensures
        match r {
            Ok(options) => decoded_options(*value, backend@) == Ok::<_, ErrorText>(options@),
            Err(error) => decoded_options(*value, backend@) == Err::<BackendOptionsText, _>(
                error@,
            ),
        },
{
    match value {
        None => Ok(DeepseekOcrBackendOptions::default()),
        Some(BackendOptionsValue::Decoded(options)) => Ok(
            DeepseekOcrBackendOptions {
                model_path: copy_text(&options.model_path),
                model_id: copy_text(&options.model_id),
                hf_revision: copy_text(&options.hf_revision),
                cache_dir: copy_text(&options.cache_dir),
                device: options.device,
                version: options.version,
                dtype: options.dtype,
            },
        ),
        Some(BackendOptionsValue::Malformed(detail)) => {
            let mut message: String = join("invalid ", backend);
            message.append(" backend_options: ");
            message.append(detail.as_str());
            Err(XbergError::validation(message))
        },
    }
}

fn copy_text(text: &Option<String>) -> (r: Option<String>)
    ensures
        text_of(r) == text_of(*text),
{
    match text {
        Some(s) => Some(s.clone()),
        None => None,
    }
}

/// The message about an option that is written but empty.
pub open spec fn empty_option_message(backend: Seq<char>, field: Seq<char>) -> Seq<char> {
    "invalid "@ + backend + " backend_options."@ + field + ": must not be empty"@
}

/// Check that an option, where it is written, is not empty.
pub fn validate_optional_non_empty(value: &Option<String>, backend: &str, field: &str) -> (r:
    Result<(), XbergError>)
    ensures
        error_text(r) == (if text_of(*value) == Some(Seq::<char>::empty()) {
            Err(ErrorText::Validation(empty_option_message(backend@, field@)))
        } else {
            Ok(())
        }),
{
    match value {
        Some(text) => if text.as_str().is_empty() {
            proof {
                assert(text@ == Seq::<char>::empty());
            }
            let mut message: String = join("invalid ", backend);
            message.append(" backend_options.");
            message.append(field);
            message.append(": must not be empty");
            Err(XbergError::validation(message))
        } else {
            Ok(())
        },
        None => Ok(()),
    }
}

/// The device that a call prefers: the one that the options name, else the one on which the
/// acceleration settings place the call, else whichever is there. Options that say `Auto` name
/// none.
pub open spec fn preferred_device(
    acceleration: Option<DevicePreference>,
    requested: Option<DevicePreference>,
) -> DevicePreference {
    match (requested, acceleration) {
        (Some(DevicePreference::Cpu), _) => DevicePreference::Cpu,
        (Some(DevicePreference::Cuda), _) => DevicePreference::Cuda,
        (Some(DevicePreference::Metal), _) => DevicePreference::Metal,
        (_, Some(device)) => device,
        (_, None) => DevicePreference::Auto,
    }
}

/// The device that a call prefers.
pub fn resolve_device_preference(config: &OcrConfig, requested: Option<DevicePreference>) -> (r:
    DevicePreference)
    ensures
        r == preferred_device(config.acceleration_device, requested),
        requested matches Some(device) ==> !(device is Auto) ==> r == device,
        requested is None || requested == Some(DevicePreference::Auto) ==> match
            config.acceleration_device {
            Some(device) => r == device,
            None => r is Auto,
        },
{
    match requested {
        Some(DevicePreference::Cpu) => DevicePreference::Cpu,
        Some(DevicePreference::Cuda) => DevicePreference::Cuda,
        Some(DevicePreference::Metal) => DevicePreference::Metal,
        _ => match config.acceleration_device {
            Some(device) => device,
            None => DevicePreference::Auto,
        },
    }
}

/// The configuration of a single call, with the defaults filled in.
#[derive(Debug)]
pub struct DeepseekOcrOptions {
    pub model_path: Option<String>,
    pub model_id: String,
    pub hf_revision: Option<String>,
    pub cache_dir: Option<std::path::PathBuf>,
    pub device: DevicePreference,
    pub version: usize,
    /// `None` leaves the choice to [`default_dtype_for`] once the device is known.
    pub dtype: Option<DType>,
}

/// The configuration of a single call, with its strings as text.
pub struct OptionsText {
    pub model_path: Option<Seq<char>>,
    pub model_id: Seq<char>,
    pub hf_revision: Option<Seq<char>>,
    pub cache_dir: Option<Seq<char>>,
    pub device: DevicePreference,
    pub version: usize,
    pub dtype: Option<DType>,
}

impl View for DeepseekOcrOptions {
    type V = OptionsText;

    open spec fn view(&self) -> OptionsText {
        OptionsText {
            model_path: text_of(self.model_path),
            model_id: self.model_id@,
            hf_revision: text_of(self.hf_revision),
            cache_dir: match self.cache_dir {
                Some(cache_dir) => Some(path_text(cache_dir)),
                None => None,
            },
            device: self.device,
            version: self.version,
            dtype: self.dtype,
        }
    }
}

/// The first option, in this order, that is written but empty.
pub open spec fn first_empty_option(options: BackendOptionsText) -> Option<Seq<char>> {
    let empty = Some(Seq::<char>::empty());
    if options.model_path == empty {
        Some("model_path"@)
    } else if options.model_id == empty {
        Some("model_id"@)
    } else if options.hf_revision == empty {
        Some("hf_revision"@)
    } else if options.cache_dir == empty {
        Some("cache_dir"@)
    } else {
        None
    }
}

/// The model version of these options.
pub open spec fn version_of(options: BackendOptionsText) -> u32 {
    match options.version {
        Some(version) => version,
        None => DEFAULT_VERSION,
    }
}

/// The message about a model version that there is not.
pub open spec fn version_message(version: u32) -> Seq<char> {
    "invalid candle-deepseek-ocr backend_options.version: expected 1 or 2, got "@ + decimal(
        version as nat,
    )
}

/// The precision of a call: what the options ask for goes before what the backend was built with.
/// Options that ask for `Auto` leave the choice to the device, however the backend was built.
pub open spec fn chosen_dtype(
    built_with: Option<DType>,
    requested: Option<CandleDeepseekOcrDtype>,
) -> Option<DType> {
    match requested {
        Some(_) => dtype_named(requested),
        None => built_with,
    }
}

/// The configuration of a call of a backend built with a precision, from what the configuration
/// says.
pub open spec fn call_options(
    built_with: Option<DType>,
    decoded: Result<BackendOptionsText, ErrorText>,
    acceleration: Option<DevicePreference>,
) -> Result<OptionsText, ErrorText> {
    match decoded {
        Err(error) => Err(error),
        Ok(options) => match first_empty_option(options) {
            Some(field) => Err(
                ErrorText::Validation(empty_option_message(BACKEND_NAME@, field)),
            ),
            None => if version_of(options) != 1 && version_of(options) != 2 {
                Err(ErrorText::Validation(version_message(version_of(options))))
            } else {
                Ok(
                    OptionsText {
                        model_path: options.model_path,
                        model_id: match options.model_id {
                            Some(model_id) => model_id,
                            None => DEFAULT_MODEL_ID@,
                        },
                        hf_revision: options.hf_revision,
                        cache_dir: options.cache_dir,
                        device: preferred_device(acceleration, options.device),
                        version: version_of(options) as usize,
                        dtype: chosen_dtype(built_with, options.dtype),
                    },
                )
            },
        },
    }
}

/// DeepSeek-OCR backend: a vision-language model that turns an image into Markdown.
///
/// Its options are:
/// - `device`: `"auto"` (default), `"cpu"`, `"cuda"` or `"metal"`;
/// - `model_id`: the repository to download weights from, [`DEFAULT_MODEL_ID`] by default and
///   ignored when `model_path` is set;
/// - `model_path`: a local model directory; without one the weights are downloaded on first use;
/// - `hf_revision`: the immutable commit of a custom `model_id`;
/// - `cache_dir`: the root of the download cache;
/// - `version`: the model version, 1 or 2 (default);
/// - `dtype`: `"auto"` (default: BF16 on CUDA, F16 on Metal, F32 on the CPU), `"f32"`, `"f16"` or
///   `"bf16"`.
#[derive(Debug)]
pub struct DeepseekOcrBackend {
    dtype: Option<DType>,
}

impl DeepseekOcrBackend {
    /// The precision that this backend was built with; `None` leaves the choice to the device.
    pub closed spec fn built_with(&self) -> Option<DType> {
        self.dtype
    }

    /// Create a backend whose precision is chosen by the device, unless
    /// [`DeepseekOcrBackend::with_dtype`] or the options of a call say otherwise.
    pub fn new() -> (r: Self)
        ensures
            r.built_with() is None,
    {
        DeepseekOcrBackend { dtype: None }
    }

    /// Force a precision regardless of the device. What the options of a call ask for still goes
    /// before it, `Auto` too.
    pub fn with_dtype(self, dtype: DType) -> (r: Self)
        ensures
            r.built_with() == Some(dtype),
    {
        DeepseekOcrBackend { dtype: Some(dtype) }
    }

    /// The configuration of a call, from what the configuration says.
    pub fn parse_options(&self, config: &OcrConfig) -> (r: Result<DeepseekOcrOptions, XbergError>)
        ensures
            match r {
                Ok(options) => call_options(
                    self.built_with(),
                    decoded_options(config.backend_options, BACKEND_NAME@),
                    config.acceleration_device,
                ) == Ok::<_, ErrorText>(options@),
                Err(error) => call_options(
                    self.built_with(),
                    decoded_options(config.backend_options, BACKEND_NAME@),
                    config.acceleration_device,
                ) == Err::<OptionsText, _>(error@),
            },
            r matches Ok(o) ==> {
                &&& o.version == 1 || o.version == 2
                &&& config.backend_options matches Some(BackendOptionsValue::Decoded(d)) ==> {
                    &&& text_of(o.model_path) == text_of(d.model_path)
                    &&& o.model_id@ == (match d.model_id {
                        Some(model_id) => model_id@,
                        None => "deepseek-ai/DeepSeek-OCR"@,
                    })
                    &&& text_of(o.hf_revision) == text_of(d.hf_revision)
                    &&& (match o.cache_dir {
                        Some(cache_dir) => Some(path_text(cache_dir)),
                        None => None,
                    }) == text_of(d.cache_dir)
                    &&& d.version matches Some(version) ==> o.version == version
                    &&& d.version is None ==> o.version == 2
                    &&& d.device matches Some(device) ==> !(device is Auto) ==> o.device == device
                    &&& d.dtype is None ==> o.dtype == self.built_with()
                    &&& d.dtype == Some(CandleDeepseekOcrDtype::Auto) ==> o.dtype is None
                    &&& d.dtype == Some(CandleDeepseekOcrDtype::F32) ==> o.dtype == Some(DType::F32)
                    &&& d.dtype == Some(CandleDeepseekOcrDtype::F16) ==> o.dtype == Some(DType::F16)
                    &&& d.dtype == Some(CandleDeepseekOcrDtype::Bf16) ==> o.dtype == Some(
                        DType::BF16,
                    )
                }
            },
            config.backend_options is None ==> r is Ok,
            config.backend_options matches Some(BackendOptionsValue::Malformed(_)) ==> r is Err,
    {
        let options: DeepseekOcrBackendOptions = match parse_backend_options(
            &config.backend_options,
            BACKEND_NAME,
        ) {
            Ok(options) => options,
            Err(error) => return Err(error),
        };
        if let Err(error) = validate_optional_non_empty(
            &options.model_path,
            BACKEND_NAME,
            "model_path",
        ) {
            return Err(error);
        }
        if let Err(error) = validate_optional_non_empty(&options.model_id, BACKEND_NAME, "model_id") {
            return Err(error);
        }
        if let Err(error) = validate_optional_non_empty(
            &options.hf_revision,
            BACKEND_NAME,
            "hf_revision",
        ) {
            return Err(error);
        }
        if let Err(error) = validate_optional_non_empty(
            &options.cache_dir,
            BACKEND_NAME,
            "cache_dir",
        ) {
            return Err(error);
        }
        let version: u32 = match options.version {
            Some(version) => version,
            None => DEFAULT_VERSION,
        };
        if version != 1 && version != 2 {
            return Err(
                XbergError::validation(
                    join(
                        "invalid candle-deepseek-ocr backend_options.version: expected 1 or 2, got ",
                        to_decimal(version as u64).as_str(),
                    ),
                ),
            );
        }
        let dtype: Option<DType> = match options.dtype {
            Some(_) => requested_dtype(options.dtype),
            None => self.dtype,
        };
        Ok(
            DeepseekOcrOptions {
                model_path: options.model_path,
                model_id: match options.model_id {
                    Some(model_id) => model_id,
                    None => DEFAULT_MODEL_ID.to_string(),
                },
                hf_revision: options.hf_revision,
                cache_dir: match options.cache_dir {
                    Some(cache_dir) => Some(path_from(cache_dir.as_str())),
                    None => None,
                },
                device: resolve_device_preference(config, options.device),
                version: version as usize,
                dtype,
            },
        )
    }
}

/// The family of engines that a backend belongs to.
#[derive(Clone, Copy, Debug, PartialEq, Eq, Structural)]
#[non_exhaustive]
pub enum OcrBackendType {
    /// Engines that run on candle.
    Candle,
}

/// What the confidence that a backend reports means.
#[derive(Clone, Copy, Debug, PartialEq, Eq, Structural)]
#[non_exhaustive]
pub enum ConfidenceSemantics {
    /// The backend reports no confidence.
    Unreported,
}

/// The language codes that the backend lists.
pub open spec fn language_codes() -> Seq<Seq<char>> {
    seq![
        "eng"@,
        "en"@,
        "zho"@,
        "zh"@,
        "jpn"@,
        "ja"@,
        "kor"@,
        "ko"@,
        "fra"@,
        "fr"@,
        "deu"@,
        "de"@,
        "spa"@,
        "es"@,
        "ita"@,
        "it"@,
        "por"@,
        "pt"@,
        "rus"@,
        "ru"@,
        "ara"@,
        "ar"@,
        "hin"@,
        "hi"@,
        "tha"@,
        "th"@,
        "vie"@,
        "vi"@,
    ]
}

/// What the backend says about itself.
impl DeepseekOcrBackend {
    /// The name of the backend.
    pub fn name(&self) -> (r: &'static str)
        ensures
            r@ == BACKEND_NAME@,
            r@ == "candle-deepseek-ocr"@,
    {
        BACKEND_NAME
    }

    /// The version of the backend.
    pub fn version(&self) -> (r: String)
        ensures
            r@ == "0.1.0"@,
    {
        "0.1.0".to_string()
    }

    /// Prepare the backend; there is nothing that could fail.
    pub fn initialize(&self) -> (r: Result<(), XbergError>)
        ensures
            r is Ok,
    {
        Ok(())
    }

    /// Put the backend away; there is nothing that could fail.
    pub fn shutdown(&self) -> (r: Result<(), XbergError>)
        ensures
            r is Ok,
    {
        Ok(())
    }

    /// Whether the backend reads a language. It takes any, listed or not.
    pub fn supports_language(&self, _lang: &str) -> (r: bool)
        ensures
            r,
    {
        true
    }

    /// The language codes that the backend lists.
    pub fn supported_languages(&self) -> (r: Vec<String>)
        ensures
            texts_of(r@) == language_codes(),
    {
        let codes: [&'static str; 28] = [
            "eng",
            "en",
            "zho",
            "zh",
            "jpn",
            "ja",
            "kor",
            "ko",
            "fra",
            "fr",
            "deu",
            "de",
            "spa",
            "es",
            "ita",
            "it",
            "por",
            "pt",
            "rus",
            "ru",
            "ara",
            "ar",
            "hin",
            "hi",
            "tha",
            "th",
            "vie",
            "vi",
        ];
        let mut r: Vec<String> = Vec::new();
        let mut i: usize = 0;
        while i < 28
            invariant
                i <= 28,
                r@.len() == i,
                forall|j: int| 0 <= j < 28 ==> (#[trigger] codes@[j])@ == language_codes()[j],
                forall|j: int| 0 <= j < i ==> (#[trigger] r@[j])@ == language_codes()[j],
            decreases 28 - i,
        {
            r.push(codes[i].to_string());
            i += 1;
        }
        proof {
            assert(texts_of(r@) == language_codes());
        }
        r
    }

    /// The family of engines that the backend belongs to.
    pub fn backend_type(&self) -> (r: OcrBackendType)
        ensures
            r == OcrBackendType::Candle,
    {
        OcrBackendType::Candle
    }

    /// Whether the text that the backend gives is structured Markdown. It is.
    pub fn emits_structured_markdown(&self) -> (r: bool)
        ensures
            r,
    {
        true
    }

    /// The backend reports no confidence.
    pub fn confidence_semantics(&self) -> (r: ConfidenceSemantics)
        ensures
            r == ConfidenceSemantics::Unreported,
    {
        ConfidenceSemantics::Unreported
    }
}

impl Default for DeepseekOcrBackend {
    fn default() -> (r: Self)
        ensures
            r.built_with() is None,
    {
        DeepseekOcrBackend::new()
    }
}

/// Law: the keys of two engine configurations are equal, so that the configurations share an
/// engine, exactly when device preference, precision, path of the model and version are the same.
/// In particular identical configurations share one, and configurations whose paths differ in more
/// than separators, dots and case do not.
pub proof fn law_equal_configurations_share_an_engine(
    first: (DevicePreference, DType, Seq<char>, usize),
    second: (DevicePreference, DType, Seq<char>, usize),
    first_key: EnginePoolKey,
    second_key: EnginePoolKey,
)
    requires
        first_key@ == pool_key(first.0, first.1, first.2, first.3),
        second_key@ == pool_key(second.0, second.1, second.2, second.3),
    ensures
        first_key.eq_spec(&second_key) <==> {
            &&& first.0 == second.0
            &&& first.1 == second.1
            &&& same_path(first.2, second.2)
            &&& first.3 == second.3
        },
        first == second ==> first_key.eq_spec(&second_key),
        path_letters(first.2) != path_letters(second.2) ==> !first_key.eq_spec(&second_key),
{
}

/// Law: the options of every call that goes ahead name a model version that there is, and no
/// empty path, repository, revision or cache directory.
pub proof fn law_accepted_options_are_valid(
    built_with: Option<DType>,
    decoded: Result<BackendOptionsText, ErrorText>,
    acceleration: Option<DevicePreference>,
)
    ensures
        call_options(built_with, decoded, acceleration) matches Ok(options) ==> {
            &&& options.version == 1 || options.version == 2
            &&& options.model_path != Some(Seq::<char>::empty())
            &&& options.model_id.len() > 0
            &&& options.hf_revision != Some(Seq::<char>::empty())
            &&& options.cache_dir != Some(Seq::<char>::empty())
        },
{
    reveal_strlit("deepseek-ai/DeepSeek-OCR");
    if let Ok(options) = decoded {
        if let Some(model_id) = options.model_id {
            if model_id.len() == 0 {
                assert(model_id == Seq::<char>::empty());
            }
        }
    }
}

/// Law: what the options of a call ask for as its precision, be it `Auto`, goes before the one that
/// the backend was built with. Only where they ask for none does the latter count.
pub proof fn law_precision_of_the_call_goes_first(
    built_with: Option<DType>,
    options: BackendOptionsText,
    acceleration: Option<DevicePreference>,
)
    ensures
        call_options(built_with, Ok(options), acceleration) matches Ok(accepted) ==> {
            &&& options.dtype is Some ==> accepted.dtype == dtype_named(options.dtype)
            &&& options.dtype is None ==> accepted.dtype == built_with
        },
{
}

/// Law: what the configuration leaves out is filled in. Without options the weights come from the
/// default repository, in the default version, for whichever device is there, in the precision
/// that the backend was built with.
pub proof fn law_missing_options_are_defaults(built_with: Option<DType>)
    ensures
        call_options(built_with, decoded_options(None, BACKEND_NAME@), None) == Ok::<_, ErrorText>(
            OptionsText {
                model_path: None,
                model_id: DEFAULT_MODEL_ID@,
                hf_revision: None,
                cache_dir: None,
                device: DevicePreference::Auto,
                version: DEFAULT_VERSION as usize,
                dtype: built_with,
            },
        ),
{
}

/// Law: writing down a default changes nothing. A call is configured alike whether the options
/// leave out device, version and repository or name `Auto`, the default version and the default
/// repository. Options that ask for `Auto` as the precision configure it as a backend built without
/// a precision does where they leave it out.
pub proof fn law_written_defaults_change_nothing(
    built_with: Option<DType>,
    options: BackendOptionsText,
    acceleration: Option<DevicePreference>,
)
    ensures
        call_options(
            built_with,
            Ok(BackendOptionsText { device: Some(DevicePreference::Auto), ..options }),
            acceleration,
        ) == call_options(
            built_with,
            Ok(BackendOptionsText { device: None, ..options }),
            acceleration,
        ),
        call_options(
            built_with,
            Ok(BackendOptionsText { dtype: Some(CandleDeepseekOcrDtype::Auto), ..options }),
            acceleration,
        ) == call_options(
            None,
            Ok(BackendOptionsText { dtype: None, ..options }),
            acceleration,
        ),
        call_options(
            built_with,
            Ok(BackendOptionsText { version: Some(DEFAULT_VERSION), ..options }),
            acceleration,
        ) == call_options(
            built_with,
            Ok(BackendOptionsText { version: None, ..options }),
            acceleration,
        ),
        call_options(
            built_with,
            Ok(BackendOptionsText { model_id: Some(DEFAULT_MODEL_ID@), ..options }),
            acceleration,
        ) == call_options(
            built_with,
            Ok(BackendOptionsText { model_id: None, ..options }),
            acceleration,
        ),
{
    reveal_strlit("deepseek-ai/DeepSeek-OCR");
}

/// Law: a device that the options name is the one that the call prefers, wherever the acceleration
/// settings would place it. Where the options name none, the acceleration settings decide, and
/// without those whichever device is there.
pub proof fn law_named_device_goes_first(
    built_with: Option<DType>,
    options: BackendOptionsText,
    acceleration: Option<DevicePreference>,
)
    ensures
        call_options(built_with, Ok(options), acceleration) matches Ok(accepted) ==> {
            &&& options.device matches Some(device) ==> !(device is Auto) ==> accepted.device
                == device
            &&& options.device is None || options.device == Some(DevicePreference::Auto) ==> (
            match acceleration {
                Some(device) => accepted.device == device,
                None => accepted.device is Auto,
            })
        },
{
}

/// Law: acceleration settings make no difference to a call whose options name a device, and never
/// to whether a call goes ahead.
pub proof fn law_acceleration_only_places_a_call(
    built_with: Option<DType>,
    decoded: Result<BackendOptionsText, ErrorText>,
    first: Option<DevicePreference>,
    second: Option<DevicePreference>,
)
    ensures
        call_options(built_with, decoded, first) is Ok <==> call_options(
            built_with,
            decoded,
            second,
        ) is Ok,
        decoded matches Ok(options) ==> (options.device matches Some(device) ==> !(device is Auto)
            ==> call_options(built_with, decoded, first) == call_options(
            built_with,
            decoded,
            second,
        )),
{
}

/// Law: a device has its precision: BF16 on CUDA, F16 on Metal, F32 on the CPU.
pub proof fn law_precision_suits_the_device(device: Device)
    ensures
        device is Cuda <==> dtype_of(device) is BF16,
        device is Metal <==> dtype_of(device) is F16,
        device is Cpu <==> dtype_of(device) is F32,
{
}

/// Law: a precision that options name is the one that is used, and `Auto` names none.
pub proof fn law_named_precision_is_used(value: CandleDeepseekOcrDtype)
    ensures
        dtype_named(None) is None,
        value is Auto <==> dtype_named(Some(value)) is None,
        value is F32 <==> dtype_named(Some(value)) == Some(DType::F32),
        value is F16 <==> dtype_named(Some(value)) == Some(DType::F16),
        value is Bf16 <==> dtype_named(Some(value)) == Some(DType::BF16),
{
}

/// Law: a key holds what it was made from, each in its place.
pub proof fn law_key_holds_the_configuration(
    preference: DevicePreference,
    dtype: DType,
    model_path: Seq<char>,
    version: usize,
    key: EnginePoolKey,
)
    ensures
        pool_key(preference, dtype, model_path, version).preference == preference,
        pool_key(preference, dtype, model_path, version).dtype == dtype,
        pool_key(preference, dtype, model_path, version).model_path == model_path,
        pool_key(preference, dtype, model_path, version).version == version,
        key@.preference == key.preference,
        key@.dtype == key.dtype,
        key@.model_path == path_text(key.model_path),
        key@.version == key.version,
{
}

/// Law: every key equals itself and every key made alike, and keys that differ in preference,
/// precision or version are never equal, whatever their paths.
pub proof fn law_keys_differ_in_every_part(first: EnginePoolKey, second: EnginePoolKey)
    ensures
        first.eq_spec(&first),
        first.preference != second.preference ==> !first.eq_spec(&second),
        first.dtype != second.dtype ==> !first.eq_spec(&second),
        first.version != second.version ==> !first.eq_spec(&second),
        path_text(first.model_path) == path_text(second.model_path) && first.preference
            == second.preference && first.dtype == second.dtype && first.version == second.version
            ==> first.eq_spec(&second),
{
}

/// Law: what the options of a call write down is what the call uses, and what they leave out is the
/// default: no local model, the default repository, version 2.
pub proof fn law_written_options_are_used(
    built_with: Option<DType>,
    options: BackendOptionsText,
    acceleration: Option<DevicePreference>,
)
    ensures
        call_options(built_with, Ok(options), acceleration) matches Ok(accepted) ==> {
            &&& accepted.model_path == options.model_path
            &&& options.model_id matches Some(model_id) ==> accepted.model_id == model_id
            &&& options.model_id is None ==> accepted.model_id == "deepseek-ai/DeepSeek-OCR"@
            &&& accepted.hf_revision == options.hf_revision
            &&& accepted.cache_dir == options.cache_dir
            &&& options.version matches Some(version) ==> accepted.version == version
            &&& options.version is None ==> accepted.version == 2
        },
{
}

/// Law: a call goes ahead exactly when its options could be decoded, none of the four texts is
/// written but empty, and the version, where it is written, is 1 or 2.
pub proof fn law_acceptable_options_are_accepted(
    built_with: Option<DType>,
    options: BackendOptionsText,
    acceleration: Option<DevicePreference>,
    error: ErrorText,
)
    ensures
        call_options(built_with, Ok(options), acceleration) is Ok <==> {
            &&& options.model_path matches Some(text) ==> text.len() > 0
            &&& options.model_id matches Some(text) ==> text.len() > 0
            &&& options.hf_revision matches Some(text) ==> text.len() > 0
            &&& options.cache_dir matches Some(text) ==> text.len() > 0
            &&& options.version matches Some(version) ==> version == 1 || version == 2
        },
        call_options(built_with, Err(error), acceleration) == Err::<OptionsText, _>(error),
{
    if let Some(text) = options.model_path {
        assert(text.len() == 0 ==> text == Seq::<char>::empty());
    }
    if let Some(text) = options.model_id {
        assert(text.len() == 0 ==> text == Seq::<char>::empty());
    }
    if let Some(text) = options.hf_revision {
        assert(text.len() == 0 ==> text == Seq::<char>::empty());
    }
    if let Some(text) = options.cache_dir {
        assert(text.len() == 0 ==> text == Seq::<char>::empty());
    }
}

/// Law: options that are not acceptable are refused for the first of these that holds: model path,
/// repository, revision or cache directory is empty, or there is no such version. The message names
/// the field, and the version where that is at fault.
pub proof fn law_refusal_names_the_field(
    built_with: Option<DType>,
    options: BackendOptionsText,
    acceleration: Option<DevicePreference>,
    version: u32,
)
    ensures
        ({
            let refused = |field: Seq<char>|
                call_options(built_with, Ok(options), acceleration) == Err::<OptionsText, _>(
                    ErrorText::Validation(
                        "invalid "@ + "candle-deepseek-ocr"@ + " backend_options."@ + field
                            + ": must not be empty"@,
                    ),
                );
            let empty = Some(Seq::<char>::empty());
            &&& options.model_path == empty ==> refused("model_path"@)
            &&& options.model_path != empty && options.model_id == empty ==> refused("model_id"@)
            &&& options.model_path != empty && options.model_id != empty && options.hf_revision
                == empty ==> refused("hf_revision"@)
            &&& options.model_path != empty && options.model_id != empty && options.hf_revision
                != empty && options.cache_dir == empty ==> refused("cache_dir"@)
            &&& options.model_path != empty && options.model_id != empty && options.hf_revision
                != empty && options.cache_dir != empty && options.version == Some(version)
                && version != 1 && version != 2 ==> call_options(
                built_with,
                Ok(options),
                acceleration,
            ) == Err::<OptionsText, _>(
                ErrorText::Validation(
                    "invalid candle-deepseek-ocr backend_options.version: expected 1 or 2, got "@
                        + decimal(version as nat),
                ),
            )
        }),
{
}

/// Law: decoding hands on what is written, takes a missing value for options that nobody wrote, and
/// names the backend where the value is no options.
pub proof fn law_decoding_keeps_the_options(
    options: DeepseekOcrBackendOptions,
    detail: String,
    backend: Seq<char>,
)
    ensures
        decoded_options(Some(BackendOptionsValue::Decoded(options)), backend) == Ok::<_, ErrorText>(
            BackendOptionsText {
                model_path: text_of(options.model_path),
                model_id: text_of(options.model_id),
                hf_revision: text_of(options.hf_revision),
                cache_dir: text_of(options.cache_dir),
                device: options.device,
                version: options.version,
                dtype: options.dtype,
            },
        ),
        decoded_options(None, backend) matches Ok(none) && none.model_path is None
            && none.model_id is None && none.hf_revision is None && none.cache_dir is None
            && none.device is None && none.version is None && none.dtype is None,
        decoded_options(Some(BackendOptionsValue::Malformed(detail)), backend) == Err::<
            BackendOptionsText,
            _,
        >(ErrorText::Validation("invalid "@ + backend + " backend_options: "@ + detail@)),
{
}

/// Law: the configuration of a call is read with each of its parts in its place.
pub proof fn law_call_options_are_read_in_place(options: DeepseekOcrOptions)
    ensures
        options@.model_path == text_of(options.model_path),
        options@.model_id == options.model_id@,
        options@.hf_revision == text_of(options.hf_revision),
        options.cache_dir matches Some(path) ==> options@.cache_dir == Some(path_text(path)),
        options.cache_dir is None ==> options@.cache_dir is None,
        options@.device == options.device,
        options@.version == options.version,
        options@.dtype == options.dtype,
{
}

/// Law: fourteen languages are listed, each by its code of three letters and then by its code of
/// two.
pub proof fn law_languages_are_listed_in_pairs()
    ensures
        language_codes() == seq!["eng"@, "en"@, "zho"@, "zh"@, "jpn"@, "ja"@, "kor"@, "ko"@] + seq![
            "fra"@,
            "fr"@,
            "deu"@,
            "de"@,
            "spa"@,
            "es"@,
            "ita"@,
            "it"@,
            "por"@,
            "pt"@,
        ] + seq!["rus"@, "ru"@, "ara"@, "ar"@, "hin"@, "hi"@, "tha"@, "th"@, "vie"@, "vi"@],
        forall|i: int|
            #![trigger language_codes()[2 * i]]
            0 <= i < 14 ==> language_codes()[2 * i].len() == 3 && language_codes()[2 * i + 1].len()
                == 2,
{
    reveal_strlit("eng");
    reveal_strlit("en");
    reveal_strlit("zho");
    reveal_strlit("zh");
    reveal_strlit("jpn");
    reveal_strlit("ja");
    reveal_strlit("kor");
    reveal_strlit("ko");
    reveal_strlit("fra");
    reveal_strlit("fr");
    reveal_strlit("deu");
    reveal_strlit("de");
    reveal_strlit("spa");
    reveal_strlit("es");
    reveal_strlit("ita");
    reveal_strlit("it");
    reveal_strlit("por");
    reveal_strlit("pt");
    reveal_strlit("rus");
    reveal_strlit("ru");
    reveal_strlit("ara");
    reveal_strlit("ar");
    reveal_strlit("hin");
    reveal_strlit("hi");
    reveal_strlit("tha");
    reveal_strlit("th");
    reveal_strlit("vie");
    reveal_strlit("vi");
    assert(language_codes().len() == 28);
}

/// Law: the outcome of a check is read as it is.
pub proof fn law_checks_are_read_as_they_are<T>(value: T, error: XbergError)
    ensures
        error_text::<T>(Ok(value)) == Ok::<_, ErrorText>(value),
        error_text::<T>(Err(error)) == Err::<T, _>(error@),
{
}

} // verus!
