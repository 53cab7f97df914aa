//! The controller that sequences the four-call protocol against one loaded
//! vendor module.
//!
//! The native module exports exactly four entry points, looked up by
//! ordinal: open (1), close (2), set-resolution (3) and get-vbios-version
//! (4). Construction aggregates the four resolution results — it is not
//! fail-fast, a failure lists every missing symbol — and only on full
//! success yields a controller holding the loaded handle, the four resolved
//! addresses and a freshly zero-initialized context. The unverified driver
//! performs each raw call and hands the native return code (and, for the
//! version query, the filled buffer) back to the methods here, which decide
//! the outcome and the state transition.

use vstd::prelude::*;

use crate::errors::{ConstructionError, FunctionGetError, NativeCallError, VersionError};
use crate::layout::AmVideoContext;
use crate::library_handle::{release_transition, LibraryHandle};
use crate::version::{decode_utf8, nul_prefix, truncate_at_nul, utf8_decoded};

verus! {

/// Ordinal of the native open entry point.
pub const ORDINAL_OPEN: u16 = 1;

/// Ordinal of the native close entry point.
pub const ORDINAL_CLOSE: u16 = 2;

/// Ordinal of the native set-resolution entry point.
pub const ORDINAL_SET_RESOLUTION: u16 = 3;

/// Ordinal of the native get-vbios-version entry point.
pub const ORDINAL_GET_VBIOS_VERSION: u16 = 4;

/// Size of the buffer supplied to the native version query.
pub const VBIOS_BUFFER_SIZE: usize = 255;

/// The four required entry points, as (symbol name, ordinal) pairs in
/// resolution order. The ordinal is the lookup key; the name is kept for
/// diagnostics.
pub fn required_entry_points() -> (r: Vec<(&'static str, u16)>)
    ensures
        r@.len() == 4,
        r@[0].0@ == "amDllVideoOpen"@ && r@[0].1 == ORDINAL_OPEN,
        r@[1].0@ == "amDllVideoClose"@ && r@[1].1 == ORDINAL_CLOSE,
        r@[2].0@ == "amDllVideoSetResolution"@ && r@[2].1 == ORDINAL_SET_RESOLUTION,
        r@[3].0@ == "amDllVideoGetVBiosVersion"@ && r@[3].1 == ORDINAL_GET_VBIOS_VERSION,
{
    let mut v: Vec<(&'static str, u16)> = Vec::new();
    v.push(("amDllVideoOpen", ORDINAL_OPEN));
    v.push(("amDllVideoClose", ORDINAL_CLOSE));
    v.push(("amDllVideoSetResolution", ORDINAL_SET_RESOLUTION));
    v.push(("amDllVideoGetVBiosVersion", ORDINAL_GET_VBIOS_VERSION));
    v
}

/// The four resolved entry-point addresses, fixed at construction and never
/// re-resolved or mutated afterwards.
#[derive(Debug, Clone, Copy, PartialEq, Eq, Structural)]
pub struct FunctionTable {
    pub video_open: usize,
    pub video_close: usize,
    pub video_set_resolution: usize,
    pub video_get_v_bios_version: usize,
}

impl FunctionTable {
    /// Every resolved address refers to an actual entry point.
    pub open spec fn wf(&self) -> bool {
        &&& self.video_open != 0
        &&& self.video_close != 0
        &&& self.video_set_resolution != 0
        &&& self.video_get_v_bios_version != 0
    }
}

/// The protocol position of a controller.
#[derive(Debug, Clone, Copy, PartialEq, Eq, Structural)]
pub enum ControllerState {
    /// Constructed; the native open has not succeeded yet.
    Constructed,
    /// The native open succeeded.
    Opened,
    /// Teardown ran; the context is logically invalidated and no further
    /// native call may be made through this controller.
    Closed,
}

/// The symbol names of the failed lookups among the four resolution
/// results, in resolution order.
pub open spec fn missing_names(
    r1: Result<usize, FunctionGetError>,
    r2: Result<usize, FunctionGetError>,
    r3: Result<usize, FunctionGetError>,
    r4: Result<usize, FunctionGetError>,
) -> Seq<Seq<char>> {
    name_if_err(r1) + name_if_err(r2) + name_if_err(r3) + name_if_err(r4)
}

/// The symbol name of one resolution result when it failed, as a sequence
/// of zero or one names.
pub open spec fn name_if_err(r: Result<usize, FunctionGetError>) -> Seq<Seq<char>> {
    match r {
        Ok(_) => Seq::empty(),
        Err(e) => seq![e.name@],
    }
}

/// The views of a list of owned names.
pub open spec fn names_of(v: Seq<String>) -> Seq<Seq<char>> {
    v.map_values(|s: String| s@)
}

/// The controller for one loaded vendor module: the module handle, the four
/// resolved entry points, one context buffer and the protocol state. The
/// native module's thread safety is unknown, so all calls driven through a
/// controller must come from the single owner that constructed it; the
/// controller is never shared.
pub struct AmVideo {
    lib: LibraryHandle,
    funcs: FunctionTable,
    ctx: AmVideoContext,
    state: ControllerState,
}

impl AmVideo {
    /// The protocol position.
    pub closed spec fn state(&self) -> ControllerState {
        self.state
    }

    /// The resolved entry-point table.
    pub closed spec fn funcs(&self) -> FunctionTable {
        self.funcs
    }

    /// The owned context buffer.
    pub closed spec fn ctx(&self) -> AmVideoContext {
        self.ctx
    }

    /// The raw address of the owned module handle.
    pub closed spec fn module_raw(&self) -> usize {
        self.lib.spec_raw()
    }

    /// The protocol position, for callers.
    pub fn current_state(&self) -> (r: ControllerState)
        ensures
            r == self.state(),
    {
        self.state
    }

    /// The resolved entry-point table, for the driver that performs the raw
    /// calls.
    pub fn function_table(&self) -> (r: FunctionTable)
        ensures
            r == self.funcs(),
    {
        self.funcs
    }

    /// Builds a controller from a loaded module handle and the four
    /// entry-point resolution results, in ordinal order. Resolution is not
    /// fail-fast: when any lookup failed, the error lists the name of every
    /// missing symbol, and no partially constructed controller is ever
    /// observable. On full success the controller starts in `Constructed`
    /// with a zero-initialized context (version 1).
    pub fn assemble(
        lib: LibraryHandle,
        open_fn: Result<usize, FunctionGetError>,
        close_fn: Result<usize, FunctionGetError>,
        set_resolution_fn: Result<usize, FunctionGetError>,
        get_vbios_fn: Result<usize, FunctionGetError>,
    ) -> (r: Result<AmVideo, ConstructionError>)
        requires
            open_fn matches Ok(a) ==> a != 0,
            close_fn matches Ok(a) ==> a != 0,
            set_resolution_fn matches Ok(a) ==> a != 0,
            get_vbios_fn matches Ok(a) ==> a != 0,
        ensures
            (r is Ok) <==> (open_fn is Ok && close_fn is Ok && set_resolution_fn is Ok
                && get_vbios_fn is Ok),
            r matches Ok(c) ==> {
                &&& c.state() is Constructed
                &&& c.funcs().wf()
                &&& c.funcs().video_open == open_fn->Ok_0
                &&& c.funcs().video_close == close_fn->Ok_0
                &&& c.funcs().video_set_resolution == set_resolution_fn->Ok_0
                &&& c.funcs().video_get_v_bios_version == get_vbios_fn->Ok_0
                &&& c.module_raw() == lib.spec_raw()
                &&& c.ctx().wf()
                &&& c.ctx().version == 1
                &&& c.ctx().tail_zeroed()
            },
            r matches Err(e) ==> names_of(e.missing@) == missing_names(
                open_fn,
                close_fn,
                set_resolution_fn,
                get_vbios_fn,
            ),
    {
        let mut missing: Vec<String> = Vec::new();
        if let Err(e) = &open_fn {
            missing.push(e.name.clone());
        }
        if let Err(e) = &close_fn {
            missing.push(e.name.clone());
        }
        if let Err(e) = &set_resolution_fn {
            missing.push(e.name.clone());
        }
        if let Err(e) = &get_vbios_fn {
            missing.push(e.name.clone());
        }
        match (open_fn, close_fn, set_resolution_fn, get_vbios_fn) {
            (Ok(video_open), Ok(video_close), Ok(video_set_resolution), Ok(video_get_v_bios_version)) => {
                let funcs = FunctionTable {
                    video_open,
                    video_close,
                    video_set_resolution,
                    video_get_v_bios_version,
                };
                Ok(AmVideo { lib, funcs, ctx: AmVideoContext::new_zeroed(), state: ControllerState::Constructed })
            },
            _ => {
                proof {
                    assert(names_of(missing@) =~= missing_names(
                        open_fn,
                        close_fn,
                        set_resolution_fn,
                        get_vbios_fn,
                    ));
                }
                Err(ConstructionError { missing })
            },
        }
    }

    /// The wire image of the owned context, for the driver to materialize
    /// the buffer whose pointer is passed into every native call.
    pub fn context_image(&self) -> (r: Vec<u8>)
        ensures
            r@ == self.ctx().context_bytes(),
            self.ctx().wf() ==> r@.len() == crate::layout::CONTEXT_SIZE,
    {
        self.ctx.encode()
    }

    /// Judges the native open call's return code. Zero is success and moves
    /// the controller to `Opened`; any nonzero code is surfaced verbatim as
    /// [`NativeCallError`] and the state is left unchanged — the call is not
    /// retried here, and whether a repeated open is tolerated is the native
    /// module's unspecified business.
    pub fn open(&mut self, code: usize) -> (r: Result<(), NativeCallError>)
        requires
            !(old(self).state() is Closed),
        ensures
            open_transition(*old(self), *final(self), code, r),
    {
        if code == 0 {
            self.state = ControllerState::Opened;
            Ok(())
        } else {
            Err(NativeCallError(code))
        }
    }

    /// Judges the native set-resolution call's return code. The settings
    /// record was passed read-only and is never mutated by either side; the
    /// caller may reuse it. Zero is success; any nonzero code is surfaced
    /// verbatim, and the state never changes.
    pub fn set_resolution(
        &mut self,
        setting: &crate::layout::AmVideoSetting,
        code: usize,
    ) -> (r: Result<(), NativeCallError>)
        requires
            !(old(self).state() is Closed),
        ensures
            (r is Ok) <==> code == 0,
            r matches Err(e) ==> e.0 == code,
            *final(self) == *old(self),
    {
        let _ = setting;
        if code == 0 {
            Ok(())
        } else {
            Err(NativeCallError(code))
        }
    }

    /// A fresh zeroed buffer of the exact size handed to the native version
    /// query.
    pub fn vbios_buffer() -> (r: Vec<u8>)
        ensures
            r@.len() == VBIOS_BUFFER_SIZE,
            forall|i: int| 0 <= i < r@.len() ==> r@[i] == 0,
    {
        let mut out: Vec<u8> = Vec::new();
        let mut i: usize = 0;
        while i < VBIOS_BUFFER_SIZE
            invariant
                i <= VBIOS_BUFFER_SIZE,
                out@.len() == i,
                forall|k: int| 0 <= k < i ==> out@[k] == 0,
            decreases VBIOS_BUFFER_SIZE - i,
        {
            out.push(0);
            i = i + 1;
        }
        out
    }

    /// Judges the native version query: `code` is the native return code and
    /// `buf` the buffer the native call filled. A nonzero code fails with
    /// that exact code; otherwise the buffer is truncated at its first zero
    /// byte (or used whole if none) and decoded as text, an invalid decode
    /// failing separately as [`VersionError::Decode`].
    pub fn get_vbios_version(&self, code: usize, buf: &Vec<u8>) -> (r: Result<String, VersionError>)
        ensures
            code != 0 ==> (r matches Err(e) && e == VersionError::Native(code)),
            code == 0 ==> match utf8_decoded(nul_prefix(buf@)) {
                Some(cs) => r matches Ok(s) && s@ == cs,
                None => r matches Err(e) && e is Decode,
            },
    {
        if code != 0 {
            return Err(VersionError::Native(code));
        }
        let truncated = truncate_at_nul(buf);
        match decode_utf8(truncated) {
            Some(s) => Ok(s),
            None => Err(VersionError::Decode),
        }
    }

    /// Judges the native close call's return code at teardown and moves the
    /// controller to `Closed`. Teardown must not fail the caller: a nonzero
    /// code is only handed back as a diagnostic for an external sink, never
    /// as an error. The transition's whole effect is [`close_transition`];
    /// in particular a closed controller admits no second close.
    pub fn close(&mut self, code: usize) -> (diag: Option<usize>)
        requires
            !(old(self).state() is Closed),
        ensures
            close_transition(*old(self), *final(self), code, diag),
    {
        self.state = ControllerState::Closed;
        if code == 0 {
            None
        } else {
            Some(code)
        }
    }

    /// Marks the owned module handle released, after close; says whether the
    /// native free must be performed now, which is the case exactly once.
    pub fn release_module(&mut self) -> (do_free: bool)
        ensures
            release_transition(old(self).spec_lib(), final(self).spec_lib(), do_free),
            final(self).state() == old(self).state(),
            final(self).funcs() == old(self).funcs(),
    {
        self.lib.release()
    }

    /// The owned module handle.
    pub closed spec fn spec_lib(&self) -> LibraryHandle {
        self.lib
    }
}

/// The effect of judging one native open call: success exactly on code
/// zero, which moves the controller to `Opened`; a nonzero code is surfaced
/// verbatim and changes nothing. The handle and the entry-point table are
/// never touched.
pub open spec fn open_transition(
    pre: AmVideo,
    post: AmVideo,
    code: usize,
    r: Result<(), NativeCallError>,
) -> bool {
    &&& (r is Ok) <==> code == 0
    &&& code == 0 ==> post.state() is Opened
    &&& code != 0 ==> post == pre && (r matches Err(e) && e.0 == code)
    &&& post.module_raw() == pre.module_raw()
    &&& post.funcs() == pre.funcs()
    &&& post.ctx() == pre.ctx()
}

/// The effect of one teardown: the controller ends `Closed`, the nonzero
/// close code (if any) is reported only as a diagnostic, and the handle and
/// entry points are untouched.
pub open spec fn close_transition(
    pre: AmVideo,
    post: AmVideo,
    code: usize,
    diag: Option<usize>,
) -> bool {
    &&& post.state() is Closed
    &&& diag == (if code == 0 {
        Option::<usize>::None
    } else {
        Option::<usize>::Some(code)
    })
    &&& post.module_raw() == pre.module_raw()
    &&& post.funcs() == pre.funcs()
}

/// Over a controller's life the native close runs exactly once: after a
/// construction, a successful open and one teardown, the controller is
/// `Closed`, no further teardown is admissible from it, and a nonzero close
/// code surfaced only as a diagnostic, never as an error.
pub proof fn lemma_close_exactly_once(
    c0: AmVideo,
    c1: AmVideo,
    r_open: Result<(), NativeCallError>,
    c2: AmVideo,
    close_code: usize,
    diag: Option<usize>,
)
    requires
        c0.state() is Constructed,
        open_transition(c0, c1, 0, r_open),
        close_transition(c1, c2, close_code, diag),
    ensures
        c2.state() is Closed,
        !admits_close(c2),
        close_code != 0 ==> diag == Some(close_code),
        close_code == 0 ==> diag is None,
{
}

/// Whether a controller may still be driven through a teardown; this is the
/// precondition of [`AmVideo::close`].
pub open spec fn admits_close(c: AmVideo) -> bool {
    !(c.state() is Closed)
}

/// The two in-module locations of the vendor's internal logging switches,
/// as (offset from the module base, value to store) pairs.
///
/// These offsets are valid only for the vendor build
/// "amVideoNvidia Build:Jan 30 2015 18:51:29 ($Rev: 4624 $)"; writing them
/// into any other build corrupts arbitrary memory. The patch is therefore a
/// strictly opt-in diagnostic: nothing here applies it, the unverified
/// driver must be asked to explicitly.
pub fn logging_patch_locations() -> (r: Vec<(usize, u32)>)
    ensures
        r@.len() == 2,
        r@[0] == (0x505D4usize, 1u32),
        r@[1] == (0x505D8usize, 1u32),
{
    let mut v: Vec<(usize, u32)> = Vec::new();
    v.push((0x505D4, 1));
    v.push((0x505D8, 1));
    v
}

} // verus!
