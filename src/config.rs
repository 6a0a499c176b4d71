use vstd::prelude::*;

verus! {

/// The policy flags of one copy run.
///
/// Created once, then shared read-only by every worker. The flags `archive`,
/// `backup`, `no_dereference`, `link`, `no_dereference_symlinks`, `preserve`,
/// `symbolic_link` and `one_file_system` are accepted but have no effect on
/// the copy procedure.
#[derive(Clone, Copy, Debug, PartialEq, Eq, Structural)]
pub struct CopyConfiguration {
    pub archive: bool,
    pub backup: bool,
    pub no_dereference: bool,
    pub force: bool,
    pub interactive: bool,
    pub link: bool,
    pub no_clobber: bool,
    pub no_dereference_symlinks: bool,
    pub preserve: bool,
    pub recursive: bool,
    pub symbolic_link: bool,
    pub update: bool,
    pub verbose: bool,
    pub one_file_system: bool,
    pub debug: bool,
}

impl CopyConfiguration {
    /// A configuration with every flag unset: the default overwrite policy.
    pub fn new() -> (r: CopyConfiguration)
        ensures
            !r.archive && !r.backup && !r.no_dereference && !r.force && !r.interactive,
            !r.link && !r.no_clobber && !r.no_dereference_symlinks && !r.preserve,
            !r.recursive && !r.symbolic_link && !r.update && !r.verbose,
            !r.one_file_system && !r.debug,
    {
        CopyConfiguration {
            archive: false,
            backup: false,
            no_dereference: false,
            force: false,
            interactive: false,
            link: false,
            no_clobber: false,
            no_dereference_symlinks: false,
            preserve: false,
            recursive: false,
            symbolic_link: false,
            update: false,
            verbose: false,
            one_file_system: false,
            debug: false,
        }
    }
}

} // verus!
