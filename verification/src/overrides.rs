//! Overrides of an extraction given on the command line.

use crate::config::{ExtractionConfig, JupyterCellRendering};
use vstd::prelude::*;

verus! {

/// Which parts of a Jupyter code cell to render, as chosen on the command line.
#[derive(Clone, Copy, Debug, PartialEq, Eq, Structural)]
pub enum JupyterCellRenderingArg {
    /// Render only the code source; omit saved outputs.
    Source,
    /// Render only the saved cell outputs; omit the code source.
    Outputs,
    /// Render both the code source and the saved outputs (default).
    Both,
}

/// The rendering that an argument chooses.
pub open spec fn rendering_of(arg: JupyterCellRenderingArg) -> JupyterCellRendering {
    match arg {
        JupyterCellRenderingArg::Source => JupyterCellRendering::Source,
        JupyterCellRenderingArg::Outputs => JupyterCellRendering::Outputs,
        JupyterCellRenderingArg::Both => JupyterCellRendering::Both,
    }
}

impl From<JupyterCellRenderingArg> for JupyterCellRendering {
    fn from(arg: JupyterCellRenderingArg) -> (r: Self) {
        match arg {
            JupyterCellRenderingArg::Source => JupyterCellRendering::Source,
            JupyterCellRenderingArg::Outputs => JupyterCellRendering::Outputs,
            JupyterCellRenderingArg::Both => JupyterCellRendering::Both,
        }
    }
}

impl vstd::std_specs::convert::FromSpecImpl<JupyterCellRenderingArg> for JupyterCellRendering {
    open spec fn obeys_from_spec() -> bool {
        true
    }

    open spec fn from_spec(arg: JupyterCellRenderingArg) -> Self {
        rendering_of(arg)
    }
}

/// The overrides of an extraction given on the command line. `F` is the type of a content format
/// as it is written there.
#[derive(Clone, Copy, Debug)]
pub struct ExtractionOverrides<F> {
    /// `--content-format`.
    pub content_format: Option<F>,
    /// `--output-format`, the deprecated spelling of `--content-format`.
    pub output_format: Option<F>,
    /// `--include-structure`.
    pub include_structure: Option<bool>,
    /// `--jupyter-cell-rendering`.
    pub jupyter_cell_rendering: Option<JupyterCellRenderingArg>,
}

impl<F> ExtractionOverrides<F> {
    /// The format chosen: `--content-format` goes before its deprecated spelling.
    pub open spec fn chosen_format(&self) -> Option<F> {
        if self.content_format is Some {
            self.content_format
        } else {
            self.output_format
        }
    }
}

impl<F: Copy> ExtractionOverrides<F> {
    /// Whether the format comes from the deprecated `--output-format`, which calls for a notice.
    pub fn uses_deprecated_output_format(&self) -> (r: bool)
        ensures
            r == (self.content_format is None && self.output_format is Some),
    {
        self.content_format.is_none() && self.output_format.is_some()
    }

    /// Set the output format of `config` to the one chosen, if any.
    pub fn apply_output_format<O: From<F>, R>(&self, config: &mut ExtractionConfig<O, R>)
        ensures
            self.content_format matches Some(format) ==> call_ensures(
                <O as From<F>>::from,
                (format,),
                final(config).output_format,
            ),
            self.content_format is None ==> (self.output_format matches Some(format)
                ==> call_ensures(
                <O as From<F>>::from,
                (format,),
                final(config).output_format,
            )),
            self.content_format is None && self.output_format is None
                ==> final(config).output_format == old(config).output_format,
            match self.chosen_format() {
                Some(format) => call_ensures(
                    <O as From<F>>::from,
                    (format,),
                    final(config).output_format,
                ),
                None => final(config).output_format == old(config).output_format,
            },
            *final(config) == (ExtractionConfig {
                output_format: final(config).output_format,
                ..*old(config)
            }),
    {
        let chosen: Option<F> = match self.content_format {
            Some(format) => Some(format),
            None => self.output_format,
        };
        if let Some(format) = chosen {
            config.output_format = O::from(format);
        }
    }

    /// Set whether the document structure is part of the result, if the overrides say so.
    pub fn apply_include_structure<O, R>(&self, config: &mut ExtractionConfig<O, R>)
        ensures
            *final(config) == (ExtractionConfig {
                include_document_structure: match self.include_structure {
                    Some(flag) => flag,
                    None => old(config).include_document_structure,
                },
                ..*old(config)
            }),
    {
        if let Some(flag) = self.include_structure {
            config.include_document_structure = flag;
        }
    }

    /// Set which parts of a Jupyter code cell are rendered, if the overrides say so.
    pub fn apply_jupyter_cell_rendering<O, R>(&self, config: &mut ExtractionConfig<O, R>)
        ensures
            *final(config) == (ExtractionConfig {
                jupyter_cell_rendering: match self.jupyter_cell_rendering {
                    Some(rendering) => rendering_of(rendering),
                    None => old(config).jupyter_cell_rendering,
                },
                ..*old(config)
            }),
            self.jupyter_cell_rendering == Some(JupyterCellRenderingArg::Source)
                ==> final(config).jupyter_cell_rendering == JupyterCellRendering::Source,
            self.jupyter_cell_rendering == Some(JupyterCellRenderingArg::Outputs)
                ==> final(config).jupyter_cell_rendering == JupyterCellRendering::Outputs,
            self.jupyter_cell_rendering == Some(JupyterCellRenderingArg::Both)
                ==> final(config).jupyter_cell_rendering == JupyterCellRendering::Both,
    {
        if let Some(rendering) = self.jupyter_cell_rendering {
            config.jupyter_cell_rendering = JupyterCellRendering::from(rendering);
        }
    }
}

/// Law: `--content-format` decides wherever it is given, whatever its deprecated spelling says;
/// that one decides where it stands alone; without either nothing is chosen.
pub proof fn law_content_format_goes_first<F>(overrides: ExtractionOverrides<F>, format: F)
    ensures
        overrides.content_format == Some(format) ==> overrides.chosen_format() == Some(format),
        overrides.content_format is None ==> overrides.chosen_format() == overrides.output_format,
        overrides.chosen_format() is None <==> overrides.content_format is None
            && overrides.output_format is None,
{
}

/// Law: the deprecated spelling makes no difference beside `--content-format`, and says the same
/// where it stands alone.
pub proof fn law_deprecated_spelling_means_the_same<F>(
    overrides: ExtractionOverrides<F>,
    format: F,
    ignored: Option<F>,
)
    ensures
        (ExtractionOverrides {
            content_format: Some(format),
            output_format: ignored,
            ..overrides
        }).chosen_format() == (ExtractionOverrides {
            content_format: None,
            output_format: Some(format),
            ..overrides
        }).chosen_format(),
        (ExtractionOverrides {
            content_format: Some(format),
            output_format: ignored,
            ..overrides
        }).chosen_format() == Some(format),
{
}

/// Law: the rendering asked for is the rendering set: source for source, outputs for outputs, both
/// for both.
pub proof fn law_rendering_is_the_one_asked_for(arg: JupyterCellRenderingArg)
    ensures
        arg is Source <==> rendering_of(arg) is Source,
        arg is Outputs <==> rendering_of(arg) is Outputs,
        arg is Both <==> rendering_of(arg) is Both,
{
}

} // verus!
