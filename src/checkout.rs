//! The checkout configuration builder and the option block it materializes.
use vstd::prelude::*;
use crate::cstr::{
    any_has_nul, c_read, c_table, lemma_table_reads_back, text_bytes, opt_bytes, opt_c_buffer, opt_c_string, opt_has_nul, opt_text, texts,
    CStringTable,
};
use crate::error::Error;

verus! {

/// Version stamp of the checkout option block.
pub const CHECKOUT_OPTIONS_VERSION: u32 = 1;

/// Strategy bit: update files safely, never discarding changes.
pub const CHECKOUT_SAFE: u32 = 0;
/// Strategy bit: make the working directory match the target, discarding changes.
pub const CHECKOUT_FORCE: u32 = 1u32 << 1u32;
/// Strategy bit: recreate files that are missing from the working directory.
pub const CHECKOUT_RECREATE_MISSING: u32 = 1u32 << 2u32;
/// Strategy bit: apply safe updates even where there are conflicts.
pub const CHECKOUT_ALLOW_CONFLICTS: u32 = 1u32 << 4u32;
/// Strategy bit: remove untracked files.
pub const CHECKOUT_REMOVE_UNTRACKED: u32 = 1u32 << 5u32;
/// Strategy bit: remove ignored files.
pub const CHECKOUT_REMOVE_IGNORED: u32 = 1u32 << 6u32;
/// Strategy bit: only update files that already exist.
pub const CHECKOUT_UPDATE_ONLY: u32 = 1u32 << 7u32;
/// Strategy bit: do not write updated file information to the index.
pub const CHECKOUT_DONT_UPDATE_INDEX: u32 = 1u32 << 8u32;
/// Strategy bit: do not refresh the index and attributes from disk first.
pub const CHECKOUT_NO_REFRESH: u32 = 1u32 << 9u32;
/// Strategy bit: skip files with unmerged index entries.
pub const CHECKOUT_SKIP_UNMERGED: u32 = 1u32 << 10u32;
/// Strategy bit: resolve conflicts with the "ours" stage.
pub const CHECKOUT_USE_OURS: u32 = 1u32 << 11u32;
/// Strategy bit: resolve conflicts with the "theirs" stage.
pub const CHECKOUT_USE_THEIRS: u32 = 1u32 << 12u32;
/// Strategy bit: do not overwrite ignored files.
pub const CHECKOUT_DONT_OVERWRITE_IGNORED: u32 = 1u32 << 19u32;
/// Strategy bit: write conflicts in merge style.
pub const CHECKOUT_CONFLICT_STYLE_MERGE: u32 = 1u32 << 20u32;
/// Strategy bit: write conflicts in diff3 style.
pub const CHECKOUT_CONFLICT_STYLE_DIFF3: u32 = 1u32 << 21u32;
/// Strategy bit: a dry run, which checks for conflicts and changes nothing.
pub const CHECKOUT_NONE: u32 = 1u32 << 30u32;

/// The bits that the mutually exclusive strategy modes occupy.
pub const CHECKOUT_MODE_MASK: u32 = (1u32 << 1u32) | (1u32 << 2u32) | (1u32 << 30u32);

/// The mutually exclusive part of a checkout strategy.
#[derive(Clone, Copy, PartialEq, Eq, Structural, Debug)]
pub enum CheckoutMode {
    /// Check for conflicts, change nothing.
    DryRun,
    /// Discard changes so that the working directory matches the target.
    Force,
    /// Update safely, creating files that are missing.
    SafeCreate,
}

/// The strategy bits of a mode.
pub open spec fn spec_mode_bits(m: CheckoutMode) -> u32 {
    match m {
        CheckoutMode::DryRun => CHECKOUT_NONE,
        CheckoutMode::Force => CHECKOUT_FORCE,
        CheckoutMode::SafeCreate => CHECKOUT_SAFE | CHECKOUT_RECREATE_MISSING,
    }
}

/// The strategy bits of a mode.
pub fn mode_bits(m: CheckoutMode) -> (r: u32)
    ensures
        r == spec_mode_bits(m),
{
    match m {
        CheckoutMode::DryRun => CHECKOUT_NONE,
        CheckoutMode::Force => CHECKOUT_FORCE,
        CheckoutMode::SafeCreate => CHECKOUT_SAFE | CHECKOUT_RECREATE_MISSING,
    }
}

/// The strategy bits that can be toggled independently of the mode.
pub open spec fn is_flag_bit(bit: u32) -> bool {
    bit == CHECKOUT_ALLOW_CONFLICTS || bit == CHECKOUT_REMOVE_UNTRACKED || bit
        == CHECKOUT_REMOVE_IGNORED || bit == CHECKOUT_UPDATE_ONLY || bit
        == CHECKOUT_DONT_UPDATE_INDEX || bit == CHECKOUT_NO_REFRESH || bit
        == CHECKOUT_SKIP_UNMERGED || bit == CHECKOUT_USE_OURS || bit == CHECKOUT_USE_THEIRS
        || bit == CHECKOUT_DONT_OVERWRITE_IGNORED || bit == CHECKOUT_CONFLICT_STYLE_MERGE || bit
        == CHECKOUT_CONFLICT_STYLE_DIFF3
}

/// What a checkout builder holds.
pub ghost struct CheckoutState {
    pub mode: CheckoutMode,
    pub flags: u32,
    pub disable_filters: bool,
    pub dir_perm: Option<u32>,
    pub file_perm: Option<u32>,
    pub paths: Seq<Seq<char>>,
    pub target_dir: Option<Seq<char>>,
    pub ancestor_label: Option<Seq<char>>,
    pub our_label: Option<Seq<char>>,
    pub their_label: Option<Seq<char>>,
    pub progress: bool,
}

impl CheckoutState {
    /// The independent flags never touch the bits of the modes.
    pub open spec fn wf(self) -> bool {
        self.flags & CHECKOUT_MODE_MASK == 0
    }

    /// The state with its mode replaced.
    pub open spec fn with_mode(self, m: CheckoutMode) -> CheckoutState {
        CheckoutState { mode: m, ..self }
    }

    /// The state with one independent flag switched on or off.
    pub open spec fn with_flag(self, bit: u32, on: bool) -> CheckoutState {
        CheckoutState { flags: if on { self.flags | bit } else { self.flags & !bit }, ..self }
    }

    /// The wire-level strategy: the mode's bits together with the flags.
    pub open spec fn strategy(self) -> u32 {
        spec_mode_bits(self.mode) | self.flags
    }
}

/// A mode and the independent flags, kept apart from the mode's bits.
struct Strategy {
    mode: CheckoutMode,
    flags: u32,
}

impl Strategy {
    #[verifier::type_invariant]
    spec fn flags_apart(&self) -> bool {
        self.flags & CHECKOUT_MODE_MASK == 0
    }

    fn with_mode(&self, m: CheckoutMode) -> (r: Strategy)
        ensures
            r.mode == m,
            r.flags == self.flags,
    {
        proof {
            use_type_invariant(self);
        }
        Strategy { mode: m, flags: self.flags }
    }

    fn with_flag(&self, bit: u32, on: bool) -> (r: Strategy)
        requires
            is_flag_bit(bit),
        ensures
            r.mode == self.mode,
            r.flags == (if on { self.flags | bit } else { self.flags & !bit }),
            r.flags & CHECKOUT_MODE_MASK == 0,
    {
        proof {
            use_type_invariant(self);
            lemma_flag_keeps_wf(self.flags, bit, on);
        }
        let flags = if on {
            self.flags | bit
        } else {
            self.flags & !bit
        };
        Strategy { mode: self.mode, flags }
    }

    fn bits(&self) -> (r: u32)
        ensures
            r == spec_mode_bits(self.mode) | self.flags,
    {
        mode_bits(self.mode) | self.flags
    }
}

/// Accumulates the configuration of a checkout.
pub struct CheckoutBuilder {
    strategy: Strategy,
    disable_filters: bool,
    dir_perm: Option<u32>,
    file_perm: Option<u32>,
    paths: Vec<String>,
    target_dir: Option<String>,
    ancestor_label: Option<String>,
    our_label: Option<String>,
    their_label: Option<String>,
    progress: bool,
}

impl View for CheckoutBuilder {
    type V = CheckoutState;

    closed spec fn view(&self) -> CheckoutState {
        CheckoutState {
            mode: self.strategy.mode,
            flags: self.strategy.flags,
            disable_filters: self.disable_filters,
            dir_perm: self.dir_perm,
            file_perm: self.file_perm,
            paths: self.paths@.map_values(|s: String| s@),
            target_dir: opt_text(self.target_dir),
            ancestor_label: opt_text(self.ancestor_label),
            our_label: opt_text(self.our_label),
            their_label: opt_text(self.their_label),
            progress: self.progress,
        }
    }
}

impl CheckoutBuilder {
    /// A builder with the defaults: safe mode creating missing files, no
    /// flags, filters on, no permission overrides, no paths (everything is
    /// checked out), no labels, no target directory, no progress callback.
    pub fn new() -> (r: CheckoutBuilder)
        ensures
            r@ == (CheckoutState {
                mode: CheckoutMode::SafeCreate,
                flags: 0,
                disable_filters: false,
                dir_perm: None,
                file_perm: None,
                paths: Seq::empty(),
                target_dir: None,
                ancestor_label: None,
                our_label: None,
                their_label: None,
                progress: false,
            }),
            r@.wf(),
    {
        assert(0u32 & CHECKOUT_MODE_MASK == 0) by (bit_vector);
        let r = CheckoutBuilder {
            strategy: Strategy { mode: CheckoutMode::SafeCreate, flags: 0 },
            disable_filters: false,
            dir_perm: None,
            file_perm: None,
            paths: Vec::new(),
            target_dir: None,
            ancestor_label: None,
            our_label: None,
            their_label: None,
            progress: false,
        };
        assert(r@.paths =~= Seq::empty());
        assert(0u32 & CHECKOUT_MODE_MASK == 0) by (bit_vector);
        r
    }

    /// Selects the dry-run mode, replacing the mode chosen before.
    pub fn dry_run(&mut self) -> (r: &mut CheckoutBuilder)
        ensures
            (*r)@ == old(self)@.with_mode(CheckoutMode::DryRun),
            (*r)@.wf(),
            *final(self) == *final(r),
    {
        self.strategy = self.strategy.with_mode(CheckoutMode::DryRun);
        proof {
            use_type_invariant(&self.strategy);
        }
        self
    }

    /// Selects the forced mode, replacing the mode chosen before.
    pub fn force(&mut self) -> (r: &mut CheckoutBuilder)
        ensures
            (*r)@ == old(self)@.with_mode(CheckoutMode::Force),
            (*r)@.wf(),
            *final(self) == *final(r),
    {
        self.strategy = self.strategy.with_mode(CheckoutMode::Force);
        proof {
            use_type_invariant(&self.strategy);
        }
        self
    }

    /// Selects the safe mode that creates missing files, replacing the mode
    /// chosen before. This is the default.
    pub fn safe(&mut self) -> (r: &mut CheckoutBuilder)
        ensures
            (*r)@ == old(self)@.with_mode(CheckoutMode::SafeCreate),
            (*r)@.wf(),
            *final(self) == *final(r),
    {
        self.strategy = self.strategy.with_mode(CheckoutMode::SafeCreate);
        proof {
            use_type_invariant(&self.strategy);
        }
        self
    }

    fn flag(&mut self, bit: u32, on: bool) -> (r: &mut CheckoutBuilder)
        requires
            is_flag_bit(bit),
        ensures
            (*r)@ == old(self)@.with_flag(bit, on),
            (*r)@.wf(),
            *final(self) == *final(r),
    {
        self.strategy = self.strategy.with_flag(bit, on);
        self
    }

    /// In safe mode, applies safe updates even where there are conflicts.
    /// Defaults to false.
    pub fn allow_conflicts(&mut self, allow: bool) -> (r: &mut CheckoutBuilder)
        ensures
            (*r)@ == old(self)@.with_flag(CHECKOUT_ALLOW_CONFLICTS, allow),
            (*r)@.wf(),
            *final(self) == *final(r),
    {
        self.flag(CHECKOUT_ALLOW_CONFLICTS, allow)
    }

    /// Removes untracked files from the working directory. Defaults to false.
    pub fn remove_untracked(&mut self, remove: bool) -> (r: &mut CheckoutBuilder)
        ensures
            (*r)@ == old(self)@.with_flag(CHECKOUT_REMOVE_UNTRACKED, remove),
            (*r)@.wf(),
            *final(self) == *final(r),
    {
        self.flag(CHECKOUT_REMOVE_UNTRACKED, remove)
    }

    /// Removes ignored files from the working directory. Defaults to false.
    pub fn remove_ignored(&mut self, remove: bool) -> (r: &mut CheckoutBuilder)
        ensures
            (*r)@ == old(self)@.with_flag(CHECKOUT_REMOVE_IGNORED, remove),
            (*r)@.wf(),
            *final(self) == *final(r),
    {
        self.flag(CHECKOUT_REMOVE_IGNORED, remove)
    }

    /// Only updates files that already exist: none is created or deleted.
    /// Defaults to false.
    pub fn update_only(&mut self, update: bool) -> (r: &mut CheckoutBuilder)
        ensures
            (*r)@ == old(self)@.with_flag(CHECKOUT_UPDATE_ONLY, update),
            (*r)@.wf(),
            *final(self) == *final(r),
    {
        self.flag(CHECKOUT_UPDATE_ONLY, update)
    }

    /// Whether the updated files' information is written to the index.
    /// Defaults to true.
    pub fn update_index(&mut self, update: bool) -> (r: &mut CheckoutBuilder)
        ensures
            (*r)@ == old(self)@.with_flag(CHECKOUT_DONT_UPDATE_INDEX, !update),
            (*r)@.wf(),
            *final(self) == *final(r),
    {
        self.flag(CHECKOUT_DONT_UPDATE_INDEX, !update)
    }

    /// Whether the index and attributes are refreshed from disk first.
    /// Defaults to true.
    pub fn refresh(&mut self, refresh: bool) -> (r: &mut CheckoutBuilder)
        ensures
            (*r)@ == old(self)@.with_flag(CHECKOUT_NO_REFRESH, !refresh),
            (*r)@.wf(),
            *final(self) == *final(r),
    {
        self.flag(CHECKOUT_NO_REFRESH, !refresh)
    }

    /// Skips files with unmerged index entries. Defaults to false.
    pub fn skip_unmerged(&mut self, skip: bool) -> (r: &mut CheckoutBuilder)
        ensures
            (*r)@ == old(self)@.with_flag(CHECKOUT_SKIP_UNMERGED, skip),
            (*r)@.wf(),
            *final(self) == *final(r),
    {
        self.flag(CHECKOUT_SKIP_UNMERGED, skip)
    }

    /// Resolves conflicts with the "ours" stage. Defaults to false.
    pub fn use_ours(&mut self, ours: bool) -> (r: &mut CheckoutBuilder)
        ensures
            (*r)@ == old(self)@.with_flag(CHECKOUT_USE_OURS, ours),
            (*r)@.wf(),
            *final(self) == *final(r),
    {
        self.flag(CHECKOUT_USE_OURS, ours)
    }

    /// Resolves conflicts with the "theirs" stage. Defaults to false.
    pub fn use_theirs(&mut self, theirs: bool) -> (r: &mut CheckoutBuilder)
        ensures
            (*r)@ == old(self)@.with_flag(CHECKOUT_USE_THEIRS, theirs),
            (*r)@.wf(),
            *final(self) == *final(r),
    {
        self.flag(CHECKOUT_USE_THEIRS, theirs)
    }

    /// Whether ignored files are overwritten. Defaults to true.
    pub fn overwrite_ignored(&mut self, overwrite: bool) -> (r: &mut CheckoutBuilder)
        ensures
            (*r)@ == old(self)@.with_flag(CHECKOUT_DONT_OVERWRITE_IGNORED, !overwrite),
            (*r)@.wf(),
            *final(self) == *final(r),
    {
        self.flag(CHECKOUT_DONT_OVERWRITE_IGNORED, !overwrite)
    }

    /// Whether conflicts are written as normal merge files. Defaults to false.
    pub fn conflict_style_merge(&mut self, on: bool) -> (r: &mut CheckoutBuilder)
        ensures
            (*r)@ == old(self)@.with_flag(CHECKOUT_CONFLICT_STYLE_MERGE, on),
            (*r)@.wf(),
            *final(self) == *final(r),
    {
        self.flag(CHECKOUT_CONFLICT_STYLE_MERGE, on)
    }

    /// Whether conflict files include the common ancestor in diff3 style.
    /// Defaults to false.
    pub fn conflict_style_diff3(&mut self, on: bool) -> (r: &mut CheckoutBuilder)
        ensures
            (*r)@ == old(self)@.with_flag(CHECKOUT_CONFLICT_STYLE_DIFF3, on),
            (*r)@.wf(),
            *final(self) == *final(r),
    {
        self.flag(CHECKOUT_CONFLICT_STYLE_DIFF3, on)
    }

    /// Whether filters such as line-ending conversion are switched off.
    pub fn disable_filters(&mut self, disable: bool) -> (r: &mut CheckoutBuilder)
        ensures
            (*r)@ == (CheckoutState { disable_filters: disable, ..old(self)@ }),
            *final(self) == *final(r),
    {
        self.disable_filters = disable;
        self
    }

    /// The mode with which new directories are created.
    pub fn dir_perm(&mut self, perm: u32) -> (r: &mut CheckoutBuilder)
        ensures
            (*r)@ == (CheckoutState { dir_perm: Some(perm), ..old(self)@ }),
            *final(self) == *final(r),
    {
        self.dir_perm = Some(perm);
        self
    }

    /// The mode with which new files are created.
    pub fn file_perm(&mut self, perm: u32) -> (r: &mut CheckoutBuilder)
        ensures
            (*r)@ == (CheckoutState { file_perm: Some(perm), ..old(self)@ }),
            *final(self) == *final(r),
    {
        self.file_perm = Some(perm);
        self
    }

    /// Adds a path to check out. With no paths everything is checked out;
    /// otherwise only these paths are.
    pub fn path(&mut self, path: &str) -> (r: &mut CheckoutBuilder)
        ensures
            (*r)@ == (CheckoutState { paths: old(self)@.paths.push(path@), ..old(self)@ }),
            *final(self) == *final(r),
    {
        let p = path.to_string();
        self.paths.push(p);
        assert(self@.paths =~= old(self)@.paths.push(path@));
        self
    }

    /// The directory to check out into.
    pub fn target_dir(&mut self, dst: &str) -> (r: &mut CheckoutBuilder)
        ensures
            (*r)@ == (CheckoutState { target_dir: Some(dst@), ..old(self)@ }),
            *final(self) == *final(r),
    {
        self.target_dir = Some(dst.to_string());
        self
    }

    /// The name of the common ancestor side of conflicts.
    pub fn ancestor_label(&mut self, label: &str) -> (r: &mut CheckoutBuilder)
        ensures
            (*r)@ == (CheckoutState { ancestor_label: Some(label@), ..old(self)@ }),
            *final(self) == *final(r),
    {
        self.ancestor_label = Some(label.to_string());
        self
    }

    /// The name of our side of conflicts.
    pub fn our_label(&mut self, label: &str) -> (r: &mut CheckoutBuilder)
        ensures
            (*r)@ == (CheckoutState { our_label: Some(label@), ..old(self)@ }),
            *final(self) == *final(r),
    {
        self.our_label = Some(label.to_string());
        self
    }

    /// The name of their side of conflicts.
    pub fn their_label(&mut self, label: &str) -> (r: &mut CheckoutBuilder)
        ensures
            (*r)@ == (CheckoutState { their_label: Some(label@), ..old(self)@ }),
            *final(self) == *final(r),
    {
        self.their_label = Some(label.to_string());
        self
    }

    /// Records whether a progress callback is registered for this checkout;
    /// the option block then carries the callback entry and this builder as
    /// its context.
    pub fn progress(&mut self, registered: bool) -> (r: &mut CheckoutBuilder)
        ensures
            (*r)@ == (CheckoutState { progress: registered, ..old(self)@ }),
            *final(self) == *final(r),
    {
        self.progress = registered;
        self
    }

    /// Materializes the configuration into an option block. Fails, before
    /// anything reaches the engine, if a path, label or the target directory
    /// holds a NUL byte.
    pub fn configure(&self) -> (r: Result<CheckoutOptions, Error>)
        ensures
            r is Ok <==> !self@.has_nul(),
            r matches Ok(o) ==> o.describes(self@),
            r matches Err(e) ==> e is InvalidNul,
    {
        let paths = if self.paths.len() > 0 {
            match CStringTable::from_strings(&self.paths) {
                Ok(t) => Some(t),
                Err(e) => return Err(e),
            }
        } else {
            None
        };
        proof {
            if self.paths@.len() == 0 {
                assert(!any_has_nul(texts(self.paths@)));
            }
            assert(texts(self.paths@) == self@.paths);
        }
        let target_directory = opt_c_string(&self.target_dir)?;
        let ancestor_label = opt_c_string(&self.ancestor_label)?;
        let our_label = opt_c_string(&self.our_label)?;
        let their_label = opt_c_string(&self.their_label)?;
        let dir_mode = match self.dir_perm {
            Some(p) => p,
            None => 0,
        };
        let file_mode = match self.file_perm {
            Some(p) => p,
            None => 0,
        };
        Ok(CheckoutOptions {
            version: CHECKOUT_OPTIONS_VERSION,
            checkout_strategy: self.strategy.bits(),
            disable_filters: self.disable_filters,
            dir_mode,
            file_mode,
            paths,
            target_directory,
            ancestor_label,
            our_label,
            their_label,
            progress: self.progress,
        })
    }

    /// What the progress entry point hands on for one notification: nothing
    /// when no callback is registered, else the path (absent when the engine
    /// gives none) with the completed and total step counts.
    pub fn progress_event(&self, path: Option<&[u8]>, completed: usize, total: usize) -> (r:
        Option<ProgressEvent>)
        ensures
            r is Some <==> self@.progress,
            r matches Some(ev) ==> ev.completed == completed && ev.total == total && opt_bytes(
                ev.path,
            ) == match path {
                Some(p) => Some(p@),
                None => None::<Seq<u8>>,
            },
    {
        if !self.progress {
            return None;
        }
        let p = match path {
            Some(b) => Some(vstd::slice::slice_to_vec(b)),
            None => None,
        };
        Some(ProgressEvent { path: p, completed, total })
    }
}

/// One progress notification, as handed to the user's callback.
pub struct ProgressEvent {
    pub path: Option<Vec<u8>>,
    pub completed: usize,
    pub total: usize,
}

/// A materialized checkout option block, in plain values: the engine's block
/// is filled from it field by field right before the call it configures.
/// A field that is `None` leaves the engine's default in place.
pub struct CheckoutOptions {
    pub version: u32,
    pub checkout_strategy: u32,
    pub disable_filters: bool,
    pub dir_mode: u32,
    pub file_mode: u32,
    /// The path filters, set only when there is at least one.
    pub paths: Option<CStringTable>,
    pub target_directory: Option<Vec<u8>>,
    pub ancestor_label: Option<Vec<u8>>,
    pub our_label: Option<Vec<u8>>,
    pub their_label: Option<Vec<u8>>,
    /// Whether the progress entry point and its context are set.
    pub progress: bool,
}

impl CheckoutState {
    /// Whether some string of the configuration holds a NUL byte.
    pub open spec fn has_nul(self) -> bool {
        any_has_nul(self.paths) || opt_has_nul(self.target_dir) || opt_has_nul(self.ancestor_label)
            || opt_has_nul(self.our_label) || opt_has_nul(self.their_label)
    }
}

/// A permission override, or zero when there is none.
pub open spec fn mode_or_zero(p: Option<u32>) -> u32 {
    match p {
        Some(m) => m,
        None => 0,
    }
}

impl CheckoutOptions {
    /// Whether this block is the materialization of a builder's state.
    pub open spec fn describes(self, s: CheckoutState) -> bool {
        &&& self.version == CHECKOUT_OPTIONS_VERSION
        &&& self.checkout_strategy == s.strategy()
        &&& self.disable_filters == s.disable_filters
        &&& self.dir_mode == mode_or_zero(s.dir_perm)
        &&& self.file_mode == mode_or_zero(s.file_perm)
        &&& (self.paths is None <==> s.paths.len() == 0)
        &&& (self.paths matches Some(t) ==> t@ == c_table(s.paths))
        &&& opt_bytes(self.target_directory) == opt_c_buffer(s.target_dir)
        &&& opt_bytes(self.ancestor_label) == opt_c_buffer(s.ancestor_label)
        &&& opt_bytes(self.our_label) == opt_c_buffer(s.our_label)
        &&& opt_bytes(self.their_label) == opt_c_buffer(s.their_label)
        &&& self.progress == s.progress
    }
}

/// Every path added to a builder comes out of `configure` in its place: the
/// block's table has one entry per path, in the order of insertion, and
/// reading an entry as a C string gives exactly the bytes of its path.
pub proof fn lemma_configured_paths(s: CheckoutState, o: CheckoutOptions)
    requires
        o.describes(s),
        s.paths.len() > 0,
        !any_has_nul(s.paths),
    ensures
        o.paths is Some,
        o.paths->Some_0@.len() == s.paths.len(),
        forall|i: int|
            0 <= i < s.paths.len() ==> c_read(#[trigger] o.paths->Some_0@[i]) == text_bytes(
                s.paths[i],
            ),
{
    lemma_table_reads_back(s.paths);
}

/// Choosing one mode and then another leaves exactly the second mode's bits
/// in the strategy, and the independent flags as they were.
pub proof fn lemma_last_mode_wins(s: CheckoutState, first: CheckoutMode, second: CheckoutMode)
    requires
        s.wf(),
    ensures
        s.with_mode(first).with_mode(second).strategy() & CHECKOUT_MODE_MASK == spec_mode_bits(
            second,
        ),
        s.with_mode(first).with_mode(second).strategy() & !CHECKOUT_MODE_MASK == s.flags,
        s.with_mode(first).with_mode(second).wf(),
{
    lemma_mode_bits_split(s.flags, second);
}

/// A flag toggled before a mode change and one toggled after it give the same
/// state, so the mode change keeps it.
pub proof fn lemma_flag_survives_mode(s: CheckoutState, m: CheckoutMode, bit: u32, on: bool)
    requires
        s.wf(),
        is_flag_bit(bit),
    ensures
        s.with_flag(bit, on).with_mode(m) == s.with_mode(m).with_flag(bit, on),
        s.with_mode(m).with_flag(bit, on).strategy() & !CHECKOUT_MODE_MASK == s.with_flag(
            bit,
            on,
        ).flags,
        s.with_mode(m).with_flag(bit, on).strategy() & CHECKOUT_MODE_MASK == spec_mode_bits(m),
{
    lemma_flag_keeps_wf(s.flags, bit, on);
    lemma_mode_bits_split(s.with_flag(bit, on).flags, m);
}

proof fn lemma_mode_bits_split(f: u32, m: CheckoutMode)
    requires
        f & CHECKOUT_MODE_MASK == 0,
    ensures
        (spec_mode_bits(m) | f) & CHECKOUT_MODE_MASK == spec_mode_bits(m),
        (spec_mode_bits(m) | f) & !CHECKOUT_MODE_MASK == f,
{
    let b = spec_mode_bits(m);
    assert((b | f) & CHECKOUT_MODE_MASK == b && (b | f) & !CHECKOUT_MODE_MASK == f) by (bit_vector)
        requires
            f & CHECKOUT_MODE_MASK == 0,
            b == 1u32 << 30u32 || b == 1u32 << 1u32 || b == (0u32 | (1u32 << 2u32)),
    ;
}

proof fn lemma_flag_keeps_wf(f: u32, bit: u32, on: bool)
    requires
        f & CHECKOUT_MODE_MASK == 0,
        is_flag_bit(bit),
    ensures
        (if on { f | bit } else { f & !bit }) & CHECKOUT_MODE_MASK == 0,
{
    assert(bit & CHECKOUT_MODE_MASK == 0) by (bit_vector)
        requires
            bit == 1u32 << 4u32 || bit == 1u32 << 5u32 || bit == 1u32 << 6u32 || bit == 1u32 << 7u32
                || bit == 1u32 << 8u32 || bit == 1u32 << 9u32 || bit == 1u32 << 10u32 || bit
                == 1u32 << 11u32 || bit == 1u32 << 12u32 || bit == 1u32 << 19u32 || bit == 1u32
                << 20u32 || bit == 1u32 << 21u32,
    ;
    assert((f | bit) & CHECKOUT_MODE_MASK == 0) by (bit_vector)
        requires
            f & CHECKOUT_MODE_MASK == 0,
            bit & CHECKOUT_MODE_MASK == 0,
    ;
    assert((f & !bit) & CHECKOUT_MODE_MASK == 0) by (bit_vector)
        requires
            f & CHECKOUT_MODE_MASK == 0,
    ;
}

} // verus!
