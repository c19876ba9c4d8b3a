# xberg

Decision logic of the xberg document extraction toolkit, written and proved in Verus.

- `generation`: the repeat guard that stops an OCR decode loop once its output only repeats itself.
- `deepseek`, `recognition`: the DeepSeek-OCR backend, the options of a call and its course from
  weights to text.
- `overrides`, `config`: what command-line overrides make of an extraction's configuration.
- `embedded`, `package`, `ole`, `mime`: the objects embedded in an OOXML archive, read within bounds,
  classified and handed to the extraction pipeline one by one.
- `outcome`: what such an extraction comes to as a whole.
- `error`, `text`, `types`: the values that these modules share.

Each public function states its result exactly; what holds across functions is stated by the proof
functions whose names begin with `law_`. ZIP archives, compound files and the table of file
extensions are those of the crates `zip`, `cfb` and `mime_guess`; the functions that call them say
what is taken on trust.

`app/` holds what runs around the library: command-line values, options written as JSON, the
asynchronous drivers and the pool of engines.
