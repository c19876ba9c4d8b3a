//! The settings of an extraction that the decisions of this crate read.

use vstd::prelude::*;

verus! {

/// Which parts of a Jupyter code cell are rendered during extraction.
#[derive(Clone, Copy, Debug, PartialEq, Eq, Structural)]
pub enum JupyterCellRendering {
    /// Only the code source; saved outputs are omitted.
    Source,
    /// Only the saved cell outputs; the code source is omitted.
    Outputs,
    /// Both the code source and the saved outputs.
    Both,
}

/// Limits that keep a hostile archive from exhausting the machine.
#[derive(Clone, Copy, Debug, PartialEq, Eq, Structural)]
pub struct SecurityLimits {
    /// Largest size of an archive, in bytes.
    pub max_archive_size: usize,
    /// Largest number of files taken from one archive.
    pub max_files_in_archive: usize,
}

/// The settings of an extraction. `O` is the type of the output format and `R` that of the settings
/// that nothing here reads; both are only carried along.
#[derive(Clone, Debug)]
pub struct ExtractionConfig<O, R> {
    /// Format of the extracted content.
    pub output_format: O,
    /// Whether the structure of the document is part of the result.
    pub include_document_structure: bool,
    /// Which parts of a Jupyter code cell are rendered.
    pub jupyter_cell_rendering: JupyterCellRendering,
    /// How many levels of archives inside archives are still opened.
    pub max_archive_depth: usize,
    /// Largest size of one embedded file, in bytes; `None` switches the limit off.
    pub max_embedded_file_bytes: Option<u64>,
    /// Limits set for this extraction; `None` stands for the default ones.
    pub security_limits: Option<SecurityLimits>,
    /// All other settings.
    pub rest: R,
}

/// The limits in force: those of the configuration, or the default ones where it sets none.
pub open spec fn limits_in_force<O, R>(
    config: ExtractionConfig<O, R>,
    default_limits: SecurityLimits,
) -> SecurityLimits {
    match config.security_limits {
        Some(limits) => limits,
        None => default_limits,
    }
}

/// `child` is `config` for one level further down: one level of archives less, at least zero,
/// and everything else as it was.
pub open spec fn one_level_down<O: Clone, R: Clone>(
    config: ExtractionConfig<O, R>,
    child: ExtractionConfig<O, R>,
) -> bool {
    &&& child.max_archive_depth == if config.max_archive_depth > 0 {
        config.max_archive_depth - 1
    } else {
        0
    }
    &&& cloned(config.output_format, child.output_format)
    &&& child.include_document_structure == config.include_document_structure
    &&& child.jupyter_cell_rendering == config.jupyter_cell_rendering
    &&& child.max_embedded_file_bytes == config.max_embedded_file_bytes
    &&& child.security_limits == config.security_limits
    &&& cloned(config.rest, child.rest)
}

impl<O: Clone, R: Clone> ExtractionConfig<O, R> {
    /// The configuration with which an embedded file is extracted: one archive level less.
    pub fn child(&self) -> (r: Self)
        ensures
            one_level_down(*self, r),
            self.max_archive_depth > 0 ==> r.max_archive_depth + 1 == self.max_archive_depth,
            self.max_archive_depth == 0 ==> r.max_archive_depth == 0,
            cloned(self.output_format, r.output_format),
            r.include_document_structure == self.include_document_structure,
            r.jupyter_cell_rendering == self.jupyter_cell_rendering,
            r.max_embedded_file_bytes == self.max_embedded_file_bytes,
            r.security_limits == self.security_limits,
            cloned(self.rest, r.rest),
    {
        ExtractionConfig {
            output_format: self.output_format.clone(),
            include_document_structure: self.include_document_structure,
            jupyter_cell_rendering: self.jupyter_cell_rendering,
            max_archive_depth: self.max_archive_depth.saturating_sub(1),
            max_embedded_file_bytes: self.max_embedded_file_bytes,
            security_limits: self.security_limits,
            rest: self.rest.clone(),
        }
    }
}

/// The limits in force for `config`.
pub fn effective_limits<O, R>(config: &ExtractionConfig<O, R>, default_limits: SecurityLimits) -> (r:
    SecurityLimits)
    ensures
        r == limits_in_force(*config, default_limits),
        config.security_limits matches Some(limits) ==> r == limits,
        config.security_limits is None ==> r == default_limits,
{
    match config.security_limits {
        Some(limits) => limits,
        None => default_limits,
    }
}

/// Law: the recursion through embedded archives ends. In a chain of configurations, each one level
/// below the one before it and each of them but the last still allowing a further level, no more
/// levels are opened than the first one allows.
pub proof fn law_recursion_is_bounded<O: Clone, R: Clone>(chain: Seq<ExtractionConfig<O, R>>)
    requires
        chain.len() > 0,
        forall|i: int, j: int|
            0 <= i && j == i + 1 && j < chain.len() ==> {
                &&& #[trigger] one_level_down(chain[i], chain[j])
                &&& chain[i].max_archive_depth > 0
            },
    ensures
        chain.len() - 1 + chain.last().max_archive_depth == chain[0].max_archive_depth,
    decreases chain.len(),
{
    if chain.len() > 1 {
        let last = chain.len() - 1;
        assert(one_level_down(chain[last - 1], chain[last]));
        law_recursion_is_bounded(chain.drop_last());
    }
}

/// Law: an embedded file is extracted as the caller asked, one level of archives further down. Its
/// configuration differs from the caller's in that number alone.
pub proof fn law_child_differs_in_depth_alone<O: Clone, R: Clone>(
    config: ExtractionConfig<O, R>,
    child: ExtractionConfig<O, R>,
)
    requires
        one_level_down(config, child),
    ensures
        child.include_document_structure == config.include_document_structure,
        child.jupyter_cell_rendering == config.jupyter_cell_rendering,
        child.max_embedded_file_bytes == config.max_embedded_file_bytes,
        child.security_limits == config.security_limits,
        cloned(config.output_format, child.output_format),
        cloned(config.rest, child.rest),
        config.max_archive_depth > 0 ==> child.max_archive_depth + 1 == config.max_archive_depth,
        config.max_archive_depth == 0 ==> child.max_archive_depth == 0,
{
}

/// Law: settings reach every level unchanged. However many levels of archives lie between two
/// configurations of a chain, the limits and the rendering of the one are those of the other.
pub proof fn law_settings_reach_every_level<O: Clone, R: Clone>(
    chain: Seq<ExtractionConfig<O, R>>,
    level: int,
    default_limits: SecurityLimits,
)
    requires
        0 <= level < chain.len(),
        forall|i: int, j: int|
            0 <= i && j == i + 1 && j < chain.len() ==> #[trigger] one_level_down(
                chain[i],
                chain[j],
            ),
    ensures
        chain[level].include_document_structure == chain[0].include_document_structure,
        chain[level].jupyter_cell_rendering == chain[0].jupyter_cell_rendering,
        chain[level].max_embedded_file_bytes == chain[0].max_embedded_file_bytes,
        limits_in_force(chain[level], default_limits) == limits_in_force(chain[0], default_limits),
    decreases level,
{
    if level > 0 {
        assert(one_level_down(chain[level - 1], chain[level]));
        law_settings_reach_every_level(chain, level - 1, default_limits);
    }
}

/// Law: limits that the configuration sets go before the default ones, which count only where it
/// sets none.
pub proof fn law_own_limits_go_first<O, R>(
    config: ExtractionConfig<O, R>,
    default_limits: SecurityLimits,
)
    ensures
        config.security_limits matches Some(limits) ==> limits_in_force(config, default_limits)
            == limits,
        config.security_limits is None ==> limits_in_force(config, default_limits)
            == default_limits,
{
}

} // verus!
