use xberg::config::{
    effective_limits, ExtractionConfig, JupyterCellRendering, SecurityLimits,
};
use xberg::overrides::{ExtractionOverrides, JupyterCellRenderingArg};

#[derive(Clone, Copy, Debug, PartialEq)]
enum FormatArg {
    Plain,
    Markdown,
}

#[derive(Clone, Debug, PartialEq)]
enum Format {
    Unset,
    Named(String),
}

impl From<FormatArg> for Format {
    fn from(arg: FormatArg) -> Self {
        match arg {
            FormatArg::Plain => Format::Named("plain".to_string()),
            FormatArg::Markdown => Format::Named("markdown".to_string()),
        }
    }
}

fn config() -> ExtractionConfig<Format, ()> {
    ExtractionConfig {
        output_format: Format::Unset,
        include_document_structure: false,
        jupyter_cell_rendering: JupyterCellRendering::Both,
        max_archive_depth: 3,
        max_embedded_file_bytes: Some(10),
        security_limits: None,
        rest: (),
    }
}

fn overrides() -> ExtractionOverrides<FormatArg> {
    ExtractionOverrides {
        content_format: None,
        output_format: None,
        include_structure: None,
        jupyter_cell_rendering: None,
    }
}

#[test]
fn content_format_goes_before_its_deprecated_spelling() {
    let both = ExtractionOverrides {
        content_format: Some(FormatArg::Markdown),
        output_format: Some(FormatArg::Plain),
        ..overrides()
    };
    let mut c = config();
    both.apply_output_format(&mut c);
    assert_eq!(c.output_format, Format::Named("markdown".to_string()));
    assert!(!both.uses_deprecated_output_format());
}

#[test]
fn deprecated_output_format_still_counts() {
    let deprecated = ExtractionOverrides { output_format: Some(FormatArg::Plain), ..overrides() };
    let mut c = config();
    deprecated.apply_output_format(&mut c);
    assert_eq!(c.output_format, Format::Named("plain".to_string()));
    assert!(deprecated.uses_deprecated_output_format());
}

#[test]
fn overrides_that_set_nothing_change_nothing() {
    let mut c = config();
    overrides().apply_output_format(&mut c);
    overrides().apply_include_structure(&mut c);
    overrides().apply_jupyter_cell_rendering(&mut c);
    assert_eq!(c.output_format, Format::Unset);
    assert!(!c.include_document_structure);
    assert_eq!(c.jupyter_cell_rendering, JupyterCellRendering::Both);
    assert!(!overrides().uses_deprecated_output_format());
}

#[test]
fn structure_and_rendering_are_overridden() {
    let set = ExtractionOverrides {
        include_structure: Some(true),
        jupyter_cell_rendering: Some(JupyterCellRenderingArg::Outputs),
        ..overrides()
    };
    let mut c = config();
    set.apply_include_structure(&mut c);
    set.apply_jupyter_cell_rendering(&mut c);
    assert!(c.include_document_structure);
    assert_eq!(c.jupyter_cell_rendering, JupyterCellRendering::Outputs);
    assert_eq!(c.max_archive_depth, 3);
}

#[test]
fn every_rendering_argument_has_its_rendering() {
    assert_eq!(
        JupyterCellRendering::from(JupyterCellRenderingArg::Source),
        JupyterCellRendering::Source
    );
    assert_eq!(
        JupyterCellRendering::from(JupyterCellRenderingArg::Outputs),
        JupyterCellRendering::Outputs
    );
    assert_eq!(
        JupyterCellRendering::from(JupyterCellRenderingArg::Both),
        JupyterCellRendering::Both
    );
}

#[test]
fn the_child_configuration_has_one_level_less() {
    let child = config().child();
    assert_eq!(child.max_archive_depth, 2);
    assert_eq!(child.output_format, Format::Unset);
    assert_eq!(child.max_embedded_file_bytes, Some(10));
    assert_eq!(child.child().child().child().max_archive_depth, 0);
}

#[test]
fn set_limits_go_before_the_default_ones() {
    let default = SecurityLimits { max_archive_size: 1, max_files_in_archive: 2 };
    let set = SecurityLimits { max_archive_size: 3, max_files_in_archive: 4 };
    let mut c = config();
    assert_eq!(effective_limits(&c, default), default);
    c.security_limits = Some(set);
    assert_eq!(effective_limits(&c, default), set);
}
