//! The course of a DeepSeek-OCR call.
//!
//! A call needs weights, a device, an engine and the text that the engine reads. [`ImageRun`] says
//! which of them is needed next and what becomes of each answer. `S` is the type of the errors
//! underneath a failed step, which are only handed on.

use crate::deepseek::{
    call_options, decoded_options, default_dtype_for, dtype_of, path_text, pool_key,
    DeepseekOcrBackend,
    DType, DeepseekOcrOptions, Device, EnginePoolKey, KeyText, OcrConfig, OptionsText,
    BACKEND_NAME,
};
use crate::error::{ErrorText, XbergError};
use crate::text::{join, outcome_text};
use vstd::prelude::*;

verus! {

/// The MIME type of the text that the engine reads.
pub const CONTENT_MIME: &'static str = "text/markdown";

/// What the engine read, and what the document built from it has to know.
#[derive(Debug)]
pub struct RecognizedText {
    /// The text read.
    pub content: String,
    /// The MIME type of the text.
    pub mime_type: String,
    /// The backend that read it.
    pub backend_name: String,
    /// Whether the task was plain text recognition. There is no other task.
    pub plain_text_task: bool,
}

/// Why a step failed.
#[derive(Debug)]
pub struct StepError<S> {
    /// The failure in words.
    pub detail: String,
    /// The error itself.
    pub source: S,
}

/// Why a call gives no text.
#[derive(Debug)]
pub struct CallError<S> {
    /// The error of the call.
    pub error: XbergError,
    /// The error underneath it, where there is one.
    pub source: Option<S>,
}

/// Where a call stands.
#[derive(Debug)]
pub enum ImageRun<S> {
    /// The weights named by the options have to be downloaded.
    Weights(DeepseekOcrOptions),
    /// A device has to be selected for the model in this directory.
    Device(DeepseekOcrOptions, String),
    /// The engine of this key has to be found or initialised on this device.
    Engine(EnginePoolKey, Device),
    /// The engine has to read the image.
    Recognition,
    /// The call is over.
    Done(Result<RecognizedText, CallError<S>>),
}

/// What the engine read, as text.
pub struct ReadText {
    pub content: Seq<char>,
    pub mime_type: Seq<char>,
    pub backend_name: Seq<char>,
    pub plain_text_task: bool,
}

impl View for RecognizedText {
    type V = ReadText;

    open spec fn view(&self) -> ReadText {
        ReadText {
            content: self.content@,
            mime_type: self.mime_type@,
            backend_name: self.backend_name@,
            plain_text_task: self.plain_text_task,
        }
    }
}

/// Why a call gives no text, as text.
pub struct CallErrorText<S> {
    pub error: ErrorText,
    pub source: Option<S>,
}

impl<S> View for CallError<S> {
    type V = CallErrorText<S>;

    open spec fn view(&self) -> CallErrorText<S> {
        CallErrorText { error: self.error@, source: self.source }
    }
}

/// Where a call stands, with its strings as text.
pub enum RunText<S> {
    Weights(OptionsText),
    Device(OptionsText, Seq<char>),
    Engine(KeyText, Device),
    Recognition,
    Done(Result<ReadText, CallErrorText<S>>),
}

impl<S> View for ImageRun<S> {
    type V = RunText<S>;

    open spec fn view(&self) -> RunText<S> {
        match *self {
            ImageRun::Weights(options) => RunText::Weights(options@),
            ImageRun::Device(options, model_path) => RunText::Device(options@, model_path@),
            ImageRun::Engine(key, device) => RunText::Engine(key@, device),
            ImageRun::Recognition => RunText::Recognition,
            ImageRun::Done(Ok(text)) => RunText::Done(Ok(text@)),
            ImageRun::Done(Err(error)) => RunText::Done(Err(error@)),
        }
    }
}

/// The call failed at optical character recognition, over `source` where there is such an error.
pub open spec fn failed<S>(what: Seq<char>, detail: Seq<char>, source: Option<S>) -> RunText<S> {
    RunText::Done(Err(CallErrorText { error: ErrorText::Ocr(what + detail), source }))
}

/// The call was not acceptable.
pub open spec fn rejected<S>(error: ErrorText) -> RunText<S> {
    RunText::Done(Err(CallErrorText { error, source: None }))
}

/// How a call starts: an empty image and unacceptable options end it, a local model directory
/// makes the download unnecessary.
pub open spec fn started<S>(
    image_len: nat,
    options: Result<OptionsText, ErrorText>,
) -> RunText<S> {
    if image_len == 0 {
        rejected(ErrorText::Validation("Empty image data provided to DeepSeek-OCR"@))
    } else {
        match options {
            Err(error) => rejected(error),
            Ok(options) => match options.model_path {
                Some(model_path) => RunText::Device(options, model_path),
                None => RunText::Weights(options),
            },
        }
    }
}

/// The download of the weights ended, with the directory that they are in or a failure.
pub open spec fn after_weights<S>(
    run: RunText<S>,
    staged: Result<Seq<char>, Seq<char>>,
) -> RunText<S> {
    match (run, staged) {
        (RunText::Weights(options), Ok(model_path)) => RunText::Device(options, model_path),
        (RunText::Weights(_), Err(detail)) => failed(
            "DeepSeek-OCR weight download failed: "@,
            detail,
            None,
        ),
        _ => run,
    }
}

/// The precision of a call on a device.
pub open spec fn dtype_on(options: OptionsText, device: Device) -> DType {
    match options.dtype {
        Some(dtype) => dtype,
        None => dtype_of(device),
    }
}

/// The selection of a device ended.
pub open spec fn after_device<S>(
    run: RunText<S>,
    selected: Result<Device, (Seq<char>, S)>,
) -> RunText<S> {
    match (run, selected) {
        (RunText::Device(options, model_path), Ok(device)) => RunText::Engine(
            pool_key(options.device, dtype_on(options, device), model_path, options.version),
            device,
        ),
        (RunText::Device(_, _), Err((detail, source))) => failed(
            "Failed to select compute device: "@,
            detail,
            Some(source),
        ),
        _ => run,
    }
}

/// The engine is there, or could not be initialised.
pub open spec fn after_engine<S>(
    run: RunText<S>,
    ready: Result<(), (Seq<char>, S)>,
) -> RunText<S> {
    match (run, ready) {
        (RunText::Engine(_, _), Ok(())) => RunText::Recognition,
        (RunText::Engine(_, _), Err((detail, source))) => failed(
            "DeepSeek-OCR engine initialisation failed: "@,
            detail,
            Some(source),
        ),
        _ => run,
    }
}

/// The engine read the image, or failed to.
pub open spec fn after_recognition<S>(
    run: RunText<S>,
    read: Result<Seq<char>, (Seq<char>, S)>,
) -> RunText<S> {
    match (run, read) {
        (RunText::Recognition, Ok(content)) => RunText::Done(
            Ok(
                ReadText {
                    content,
                    mime_type: CONTENT_MIME@,
                    backend_name: BACKEND_NAME@,
                    plain_text_task: true,
                },
            ),
        ),
        (RunText::Recognition, Err((detail, source))) => failed(
            "DeepSeek-OCR inference failed: "@,
            detail,
            Some(source),
        ),
        _ => run,
    }
}

/// The task that runs the call broke off.
pub open spec fn after_abort<S>(run: RunText<S>, detail: Seq<char>) -> RunText<S> {
    match run {
        RunText::Done(_) => run,
        _ => failed("DeepSeek-OCR task execution failed: "@, detail, None),
    }
}

/// The outcome of a step, its failure as text with the error itself.
pub open spec fn step_text<T, S>(outcome: Result<T, StepError<S>>) -> Result<T, (Seq<char>, S)> {
    match outcome {
        Ok(value) => Ok(value),
        Err(failure) => Err((failure.detail@, failure.source)),
    }
}

/// The outcome of reading, as text.
pub open spec fn reading_text<S>(read: Result<String, StepError<S>>) -> Result<
    Seq<char>,
    (Seq<char>, S),
> {
    match read {
        Ok(content) => Ok(content@),
        Err(failure) => Err((failure.detail@, failure.source)),
    }
}

fn fail<S>(what: &str, detail: &str, source: Option<S>) -> (r: ImageRun<S>)
    ensures
        r@ == failed(what@, detail@, source),
{
    ImageRun::Done(Err(CallError { error: XbergError::ocr(join(what, detail)), source }))
}

fn reject<S>(error: XbergError) -> (r: ImageRun<S>)
    ensures
        r@ == rejected::<S>(error@),
{
    ImageRun::Done(Err(CallError { error, source: None }))
}

impl DeepseekOcrBackend {
    /// Start to read an image under a configuration.
    pub fn start_image<S>(&self, image_bytes: &[u8], config: &OcrConfig) -> (r: ImageRun<S>)
        ensures
            r@ == started::<S>(
                image_bytes@.len(),
                call_options(
                    self.built_with(),
                    decoded_options(config.backend_options, BACKEND_NAME@),
                    config.acceleration_device,
                ),
            ),
    {
        if image_bytes.len() == 0 {
            return reject(
                XbergError::validation("Empty image data provided to DeepSeek-OCR".to_string()),
            );
        }
        match self.parse_options(config) {
            Ok(options) => {
                let local: Option<String> = match &options.model_path {
                    Some(model_path) => Some(model_path.clone()),
                    None => None,
                };
                match local {
                    Some(model_path) => ImageRun::Device(options, model_path),
                    None => ImageRun::Weights(options),
                }
            },
            Err(error) => reject(error),
        }
    }
}

impl<S> ImageRun<S> {
    /// The download of the weights ended, with the directory that they are in or a failure.
    pub fn weights_staged(self, staged: Result<String, String>) -> (r: ImageRun<S>)
        ensures
            r@ == after_weights(self@, outcome_text(staged)),
            self matches ImageRun::Weights(options) ==> (staged matches Ok(model_path) ==> r
                == ImageRun::<S>::Device(options, model_path)),
    {
        match self {
            ImageRun::Weights(options) => match staged {
                Ok(model_path) => ImageRun::Device(options, model_path),
                Err(detail) => fail(
                    "DeepSeek-OCR weight download failed: ",
                    detail.as_str(),
                    None,
                ),
            },
            other => other,
        }
    }

    /// The selection of a device ended. The precision is then known, and with it the engine that
    /// the call shares with those of the same configuration.
    pub fn device_selected(self, selected: Result<Device, StepError<S>>) -> (r: ImageRun<S>)
        ensures
            r@ == after_device(self@, step_text(selected)),
            self matches ImageRun::Device(options, model_path) ==> (selected matches Ok(device) ==> r
                matches ImageRun::Engine(key, on) && on == device && key.preference
                == options.device && path_text(key.model_path) == model_path@ && key.version
                == options.version && (options.dtype matches Some(dtype) ==> key.dtype == dtype) && (
            options.dtype is None ==> key.dtype == dtype_of(device))),
            self matches ImageRun::Device(_, _) ==> (selected matches Err(failure) ==> r matches
                ImageRun::Done(Err(e)) && e.source == Some(failure.source)),
    {
        match self {
            ImageRun::Device(options, model_path) => match selected {
                Ok(device) => {
                    let dtype: DType = match options.dtype {
                        Some(dtype) => dtype,
                        None => default_dtype_for(&device),
                    };
                    ImageRun::Engine(
                        EnginePoolKey::new(
                            options.device,
                            dtype,
                            model_path.as_str(),
                            options.version,
                        ),
                        device,
                    )
                },
                Err(failure) => fail(
                    "Failed to select compute device: ",
                    failure.detail.as_str(),
                    Some(failure.source),
                ),
            },
            other => other,
        }
    }

    /// The engine is there, or could not be initialised.
    pub fn engine_ready(self, ready: Result<(), StepError<S>>) -> (r: ImageRun<S>)
        ensures
            r@ == after_engine(self@, step_text(ready)),
            self is Engine && ready is Ok ==> r is Recognition,
            self is Engine ==> (ready matches Err(failure) ==> r matches ImageRun::Done(Err(e))
                && e.source == Some(failure.source)),
    {
        match self {
            ImageRun::Engine(key, device) => match ready {
                Ok(()) => ImageRun::Recognition,
                Err(failure) => fail(
                    "DeepSeek-OCR engine initialisation failed: ",
                    failure.detail.as_str(),
                    Some(failure.source),
                ),
            },
            other => other,
        }
    }

    /// The engine read the image, or failed to.
    pub fn recognized(self, read: Result<String, StepError<S>>) -> (r: ImageRun<S>)
        ensures
            r@ == after_recognition(self@, reading_text(read)),
            self is Recognition ==> (read matches Ok(content) ==> r matches ImageRun::Done(Ok(text))
                && text.content == content && text.mime_type@ == "text/markdown"@
                && text.backend_name@ == "candle-deepseek-ocr"@ && text.plain_text_task),
            self is Recognition ==> (read matches Err(failure) ==> r matches ImageRun::Done(Err(e))
                && e.source == Some(failure.source)),
    {
        match self {
            ImageRun::Recognition => match read {
                Ok(content) => ImageRun::Done(
                    Ok(
                        RecognizedText {
                            content,
                            mime_type: CONTENT_MIME.to_string(),
                            backend_name: BACKEND_NAME.to_string(),
                            plain_text_task: true,
                        },
                    ),
                ),
                Err(failure) => fail(
                    "DeepSeek-OCR inference failed: ",
                    failure.detail.as_str(),
                    Some(failure.source),
                ),
            },
            other => other,
        }
    }

    /// The task that runs the call broke off.
    pub fn aborted(self, detail: String) -> (r: ImageRun<S>)
        ensures
            r@ == after_abort(self@, detail@),
    {
        match self {
            ImageRun::Done(outcome) => ImageRun::Done(outcome),
            _ => fail("DeepSeek-OCR task execution failed: ", detail.as_str(), None),
        }
    }
}

/// Law: a call that is over stays as it ended, whatever is reported afterwards.
pub proof fn law_finished_call_stays_finished<S>(
    end: Result<ReadText, CallErrorText<S>>,
    staged: Result<Seq<char>, Seq<char>>,
    selected: Result<Device, (Seq<char>, S)>,
    ready: Result<(), (Seq<char>, S)>,
    read: Result<Seq<char>, (Seq<char>, S)>,
    detail: Seq<char>,
)
    ensures
        after_weights(RunText::Done(end), staged) == RunText::Done(end),
        after_device(RunText::Done(end), selected) == RunText::Done(end),
        after_engine(RunText::Done(end), ready) == RunText::Done(end),
        after_recognition(RunText::Done(end), read) == RunText::Done(end),
        after_abort(RunText::Done(end), detail) == RunText::Done(end),
{
}

/// Law: a step that fails ends the call with an error about optical character recognition. The
/// error underneath is kept where the device, the engine or the reading failed.
pub proof fn law_failed_step_ends_the_call<S>(
    options: OptionsText,
    model_path: Seq<char>,
    key: KeyText,
    device: Device,
    detail: Seq<char>,
    source: S,
)
    ensures
        after_weights(RunText::<S>::Weights(options), Err(detail)) matches RunText::Done(Err(e))
            && e.error is Ocr && e.source is None,
        after_device(RunText::Device(options, model_path), Err((detail, source))) matches
            RunText::Done(Err(e)) && e.error is Ocr && e.source == Some(source),
        after_engine(RunText::Engine(key, device), Err((detail, source))) matches RunText::Done(
            Err(e),
        ) && e.error is Ocr && e.source == Some(source),
        after_recognition(RunText::Recognition, Err((detail, source))) matches RunText::Done(Err(e))
            && e.error is Ocr && e.source == Some(source),
{
}

/// Law: weights are downloaded exactly when the image is not empty and the options are acceptable
/// and name no local model directory.
pub proof fn law_local_model_is_not_downloaded<S>(
    image_len: nat,
    options: Result<OptionsText, ErrorText>,
)
    ensures
        started::<S>(image_len, options) is Weights <==> image_len > 0 && (options matches Ok(o)
            && o.model_path is None),
{
}

/// Law: a call whose steps all succeed gives the text that the engine read, as Markdown of this
/// backend; the engine is the one of the call's device preference, model directory and version,
/// in the precision of the options or else of the device.
pub proof fn law_successful_call<S>(
    image_len: nat,
    options: OptionsText,
    staged: Seq<char>,
    device: Device,
    content: Seq<char>,
)
    requires
        image_len > 0,
    ensures
        ({
            let located = after_weights(started::<S>(image_len, Ok(options)), Ok(staged));
            let engine = after_device(located, Ok(device));
            let end = after_recognition(after_engine(engine, Ok(())), Ok(content));
            let model_path = match options.model_path {
                Some(model_path) => model_path,
                None => staged,
            };
            let dtype = match options.dtype {
                Some(dtype) => dtype,
                None => dtype_of(device),
            };
            &&& engine == RunText::<S>::Engine(
                KeyText {
                    preference: options.device,
                    dtype,
                    model_path,
                    version: options.version,
                },
                device,
            )
            &&& end == RunText::<S>::Done(
                Ok(
                    ReadText {
                        content,
                        mime_type: CONTENT_MIME@,
                        backend_name: BACKEND_NAME@,
                        plain_text_task: true,
                    },
                ),
            )
        }),
{
}

/// Law: how a call starts. An empty image is refused whatever the options say; options that are not
/// acceptable end the call with their own error; a local model directory is used as it is written;
/// without one the weights are needed first.
pub proof fn law_call_starts_with_its_options<S>(
    image_len: nat,
    options: OptionsText,
    error: ErrorText,
    any: Result<OptionsText, ErrorText>,
)
    ensures
        started::<S>(0, any) == RunText::<S>::Done(
            Err(
                CallErrorText {
                    error: ErrorText::Validation("Empty image data provided to DeepSeek-OCR"@),
                    source: None,
                },
            ),
        ),
        image_len > 0 ==> started::<S>(image_len, Err(error)) == RunText::<S>::Done(
            Err(CallErrorText { error, source: None }),
        ),
        image_len > 0 ==> (options.model_path matches Some(model_path) ==> started::<S>(
            image_len,
            Ok(options),
        ) == RunText::<S>::Device(options, model_path)),
        image_len > 0 && options.model_path is None ==> started::<S>(image_len, Ok(options))
            == RunText::<S>::Weights(options),
{
}

/// Law: the options of a call go with it unchanged until its engine is known, and the engine is
/// that of the preference, the directory and the version of the call, on the device selected, in
/// the precision of the options or else of the device.
pub proof fn law_engine_is_that_of_the_call<S>(
    options: OptionsText,
    staged: Seq<char>,
    device: Device,
)
    ensures
        after_weights(RunText::<S>::Weights(options), Ok(staged)) == RunText::<S>::Device(
            options,
            staged,
        ),
        after_device(RunText::<S>::Device(options, staged), Ok(device)) matches RunText::Engine(
            key,
            on,
        ) && {
            &&& on == device
            &&& key.preference == options.device
            &&& key.model_path == staged
            &&& key.version == options.version
            &&& options.dtype matches Some(dtype) ==> key.dtype == dtype
            &&& options.dtype is None ==> (match device {
                Device::Cuda => key.dtype is BF16,
                Device::Metal => key.dtype is F16,
                Device::Cpu => key.dtype is F32,
            })
        },
{
}

/// Law: calls that differ in version, preference, directory or precision ask for different engines.
pub proof fn law_different_calls_need_different_engines<S>(
    first: OptionsText,
    second: OptionsText,
    first_path: Seq<char>,
    second_path: Seq<char>,
    device: Device,
)
    requires
        first.version != second.version || first.device != second.device || first_path
            != second_path || (first.dtype is Some && second.dtype is Some && first.dtype
            != second.dtype),
    ensures
        after_device(RunText::<S>::Device(first, first_path), Ok(device)) != after_device(
            RunText::<S>::Device(second, second_path),
            Ok(device),
        ),
{
}

/// Law: what the engine read is handed back as it is, as Markdown of this backend.
pub proof fn law_text_is_handed_back<S>(key: KeyText, device: Device, content: Seq<char>)
    ensures
        after_engine(RunText::<S>::Engine(key, device), Ok(())) is Recognition,
        after_recognition(RunText::<S>::Recognition, Ok(content)) matches RunText::Done(Ok(text))
            && text.content == content && text.mime_type == "text/markdown"@ && text.backend_name
            == "candle-deepseek-ocr"@ && text.plain_text_task,
{
}

/// Law: a failure says which step failed and why.
pub proof fn law_failure_says_which_step<S>(
    options: OptionsText,
    model_path: Seq<char>,
    key: KeyText,
    device: Device,
    detail: Seq<char>,
    source: S,
    run: RunText<S>,
)
    ensures
        after_weights(RunText::<S>::Weights(options), Err(detail)) matches RunText::Done(Err(e))
            && e.error == ErrorText::Ocr("DeepSeek-OCR weight download failed: "@ + detail),
        after_device(RunText::Device(options, model_path), Err((detail, source))) matches
            RunText::Done(Err(e)) && e.error == ErrorText::Ocr(
            "Failed to select compute device: "@ + detail,
        ),
        after_engine(RunText::Engine(key, device), Err((detail, source))) matches RunText::Done(
            Err(e),
        ) && e.error == ErrorText::Ocr("DeepSeek-OCR engine initialisation failed: "@ + detail),
        after_recognition(RunText::Recognition, Err((detail, source))) matches RunText::Done(Err(e))
            && e.error == ErrorText::Ocr("DeepSeek-OCR inference failed: "@ + detail),
        !(run is Done) ==> (after_abort(run, detail) matches RunText::Done(Err(e)) && e.source is None
            && e.error == ErrorText::Ocr("DeepSeek-OCR task execution failed: "@ + detail)),
{
}

/// Law: an answer that the call did not ask for changes nothing.
pub proof fn law_unasked_answer_changes_nothing<S>(
    run: RunText<S>,
    staged: Result<Seq<char>, Seq<char>>,
    selected: Result<Device, (Seq<char>, S)>,
    ready: Result<(), (Seq<char>, S)>,
    read: Result<Seq<char>, (Seq<char>, S)>,
)
    ensures
        !(run is Weights) ==> after_weights(run, staged) == run,
        !(run is Device) ==> after_device(run, selected) == run,
        !(run is Engine) ==> after_engine(run, ready) == run,
        !(run is Recognition) ==> after_recognition(run, read) == run,
{
}

/// Law: a call is read as it stands, with all that it holds.
pub proof fn law_call_is_read_as_it_stands<S>(run: ImageRun<S>)
    ensures
        match run {
            ImageRun::Weights(options) => run@ == RunText::<S>::Weights(options@),
            ImageRun::Device(options, model_path) => run@ == RunText::<S>::Device(
                options@,
                model_path@,
            ),
            ImageRun::Engine(key, device) => run@ == RunText::<S>::Engine(key@, device),
            ImageRun::Recognition => run@ is Recognition,
            ImageRun::Done(Ok(text)) => run@ matches RunText::Done(Ok(read)) && read.content
                == text.content@ && read.mime_type == text.mime_type@ && read.backend_name
                == text.backend_name@ && read.plain_text_task == text.plain_text_task,
            ImageRun::Done(Err(failure)) => run@ matches RunText::Done(Err(e)) && e.error
                == failure.error@ && e.source == failure.source,
        },
{
}

/// Law: what a step reports is read as it is: success as success with its value, failure as failure
/// with its words and the error itself.
pub proof fn law_steps_are_read_as_they_are<T, S>(
    value: T,
    content: String,
    failure: StepError<S>,
)
    ensures
        step_text::<T, S>(Ok(value)) == Ok::<T, (Seq<char>, S)>(value),
        step_text::<T, S>(Err(failure)) == Err::<T, _>((failure.detail@, failure.source)),
        reading_text::<S>(Ok(content)) == Ok::<_, (Seq<char>, S)>(content@),
        reading_text::<S>(Err(failure)) == Err::<Seq<char>, _>((failure.detail@, failure.source)),
{
}

} // verus!
