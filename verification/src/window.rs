//! Windows for a picker: which of the window manager's top-level windows are
//! listed, and as what.
//!
//! The window manager is asked about one window at a time, one question
//! after another, and most windows are turned down after a question or two.
//! [`begin`] and the stages behind it take each answer and say whether the
//! next question is worth asking. [`inspect`] and [`get_on_screen_windows`]
//! decide the same from answers that were all collected beforehand.

use vstd::prelude::*;
use crate::exe_path::{in_system_apps, is_system_app, owner_name, owner_units};
use crate::geometry::{Bounds, Rect};
use crate::utf16::{copy_of, decode_lossy, utf16_lossy};

verus! {

/// A window as a picker shows it: a copy taken at one moment.
#[derive(Debug, PartialEq, Eq)]
pub struct Window {
    /// The low 32 bits of the window's native handle.
    pub window_id: u32,
    /// The window's title.
    pub name: String,
    /// What the executable of the owning process is called.
    pub owner_name: String,
    /// The owning process.
    pub process_id: u32,
    /// Where the window is, in logical units.
    pub bounds: Bounds,
}

/// A [`Window`] with its texts as sequences of characters.
pub struct WindowView {
    pub window_id: u32,
    pub name: Seq<char>,
    pub owner_name: Seq<char>,
    pub process_id: u32,
    pub bounds: Bounds,
}

impl View for Window {
    type V = WindowView;

    open spec fn view(&self) -> WindowView {
        WindowView {
            window_id: self.window_id,
            name: self.name@,
            owner_name: self.owner_name@,
            process_id: self.process_id,
            bounds: self.bounds,
        }
    }
}

impl Clone for Window {
    fn clone(&self) -> (copy: Window)
        ensures
            copy@ == self@,
    {
        Window {
            window_id: self.window_id,
            name: self.name.clone(),
            owner_name: self.owner_name.clone(),
            process_id: self.process_id,
            bounds: self.bounds,
        }
    }
}

/// The identifier of the window with this native handle: the handle's low
/// 32 bits.
pub open spec fn window_id_of(handle: isize) -> u32 {
    (handle as int % 0x1_0000_0000) as u32
}

/// The native handle that an identifier is widened to: the identifier
/// itself wherever a handle has room for it.
pub open spec fn handle_of(window_id: u32) -> isize {
    window_id as isize
}

/// The identifier of the window with this native handle.
pub fn window_id(handle: isize) -> (id: u32)
    ensures
        id == window_id_of(handle),
{
    assert(handle as u32 == (handle as int % 0x1_0000_0000) as u32) by (bit_vector);
    #[verifier::truncate]
    (handle as u32)
}

/// What the window manager is asked in order to raise a window.
#[derive(Clone, Copy, Debug, PartialEq, Eq, Structural)]
pub struct FocusRequest {
    /// The native handle of the window to raise.
    pub handle: isize,
}

/// The request that raises the window `window_id` and gives it the focus.
///
/// The one who submits it does not learn whether the window manager
/// complied: it may turn the request down, and that is no failure.
pub fn bring_window_to_focus(window_id: u32) -> (request: FocusRequest)
    ensures
        request.handle == handle_of(window_id),
        window_id <= isize::MAX ==> request.handle == window_id,
        window_id_of(request.handle) == window_id,
{
    assert((window_id as isize) as u32 == ((window_id as isize) as int % 0x1_0000_0000) as u32)
        by (bit_vector);
    assert((window_id as isize) as u32 == window_id) by (bit_vector);
    FocusRequest {
        handle: #[verifier::truncate]
        (window_id as isize),
    }
}

/// Whether the reading of a window's cloak attribute says that the system
/// hides the window. An attribute that could not be read hides nothing.
pub open spec fn is_cloaked(cloak: Option<u32>) -> bool {
    match cloak {
        Some(value) => value != 0,
        None => false,
    }
}

/// The rectangle that a reading stands for: one that failed leaves the
/// rectangle at the origin.
pub open spec fn rect_or_origin(rect: Option<Rect>) -> Rect {
    match rect {
        Some(rect) => rect,
        None => Rect::origin(),
    }
}

/// All that the window manager answers about one top-level window.
#[derive(Debug, PartialEq, Eq)]
pub struct Candidate {
    /// The window's native handle.
    pub handle: isize,
    /// Whether the window is visible.
    pub visible: bool,
    /// The window's cloak attribute, `None` where it cannot be read.
    pub cloak: Option<u32>,
    /// The process that owns the window.
    pub process_id: u32,
    /// The length that the window manager gives for the title.
    pub title_length: i32,
    /// The title as it was read, in UTF-16 code units.
    pub title: Vec<u16>,
    /// The handle on the owning process, `None` where it cannot be opened.
    pub process: Option<isize>,
    /// The path of the owning process's executable in UTF-16 code units,
    /// `None` where the process does not give it.
    pub image_path: Option<Vec<u16>>,
    /// The DPI of the window, zero where the system cannot tell.
    pub dpi: u32,
    /// The window's rectangle on screen, `None` where it cannot be read.
    pub rect: Option<Rect>,
}

impl Clone for Candidate {
    fn clone(&self) -> (copy: Candidate)
        ensures
            admitted(copy) == admitted(*self),
            copy.handle == self.handle,
            copy.visible == self.visible,
            copy.cloak == self.cloak,
            copy.process_id == self.process_id,
            copy.title_length == self.title_length,
            copy.title@ == self.title@,
            copy.process == self.process,
            copy.image_path is Some <==> self.image_path is Some,
            copy.image_path is Some ==> copy.image_path.unwrap()@ == self.image_path.unwrap()@,
            copy.dpi == self.dpi,
            copy.rect == self.rect,
    {
        Candidate {
            handle: self.handle,
            visible: self.visible,
            cloak: self.cloak,
            process_id: self.process_id,
            title_length: self.title_length,
            title: copy_of(&self.title),
            process: self.process,
            image_path: match &self.image_path {
                Some(path) => Some(copy_of(path)),
                None => None,
            },
            dpi: self.dpi,
            rect: self.rect,
        }
    }
}

/// The window that a picker lists for a candidate, if it lists one.
///
/// A candidate is passed over when its handle is null, when it is not
/// visible, when it is cloaked, when its title has length zero or is empty
/// as it was read, when the path of its owner's executable cannot be had,
/// or when that executable belongs to the system's own shell.
pub open spec fn admitted(candidate: Candidate) -> Option<WindowView> {
    if candidate.handle == 0 || !candidate.visible || is_cloaked(candidate.cloak)
        || candidate.title_length == 0 || candidate.title@.len() == 0
        || candidate.process is None {
        None
    } else {
        match candidate.image_path {
            None => None,
            Some(path) => if is_system_app(path@) {
                None
            } else {
                Some(
                    WindowView {
                        window_id: window_id_of(candidate.handle),
                        name: utf16_lossy(candidate.title@),
                        owner_name: utf16_lossy(owner_units(path@)),
                        process_id: candidate.process_id,
                        bounds: Bounds::of_window(rect_or_origin(candidate.rect), candidate.dpi),
                    },
                )
            },
        }
    }
}

/// The windows that a picker lists for the candidates, in their order.
pub open spec fn listed(candidates: Seq<Candidate>) -> Seq<WindowView>
    decreases candidates.len(),
{
    if candidates.len() == 0 {
        Seq::empty()
    } else {
        let before = listed(candidates.drop_last());
        match admitted(candidates.last()) {
            Some(window) => before.push(window),
            None => before,
        }
    }
}

/// The views of a sequence of windows.
pub open spec fn views(windows: Seq<Window>) -> Seq<WindowView> {
    windows.map_values(|window: Window| window@)
}

/// A window whose visibility is to be asked next.
pub struct AwaitVisibility {
    pub handle: isize,
}

/// A visible window whose cloak attribute is to be read next.
pub struct AwaitCloak {
    pub handle: isize,
}

/// A window in plain sight whose owning process is to be asked next.
pub struct AwaitProcessId {
    pub handle: isize,
}

/// A window whose title length is to be asked next.
pub struct AwaitTitleLength {
    pub handle: isize,
    pub process_id: u32,
}

/// A window that is said to have a title, which is to be read next.
pub struct AwaitTitle {
    pub handle: isize,
    pub process_id: u32,
}

/// A window with a title, whose owning process is to be opened next.
pub struct AwaitProcess {
    pub handle: isize,
    pub process_id: u32,
    pub title: Vec<u16>,
}

/// A window whose owning process is open, to be asked for the path of its
/// executable next.
pub struct AwaitImagePath {
    pub handle: isize,
    pub process_id: u32,
    pub title: Vec<u16>,
    /// The handle on the owning process, which is open.
    pub process: isize,
}

/// A window whose owning process has answered and is to be closed next,
/// whatever it answered.
pub struct AwaitClose {
    pub handle: isize,
    pub process_id: u32,
    pub title: Vec<u16>,
    /// The handle on the owning process, which is still open.
    pub process: isize,
    pub image_path: Option<Vec<u16>>,
}

/// A window of an ordinary application, whose DPI is to be asked next.
pub struct AwaitDpi {
    pub handle: isize,
    pub process_id: u32,
    pub title: Vec<u16>,
    pub image_path: Vec<u16>,
}

/// A window whose rectangle is to be read next, as the last thing.
pub struct AwaitRect {
    pub handle: isize,
    pub process_id: u32,
    pub title: Vec<u16>,
    pub image_path: Vec<u16>,
    pub dpi: u32,
}

/// Takes up the window with this handle. The null handle is no window.
pub fn begin(handle: isize) -> (next: Option<AwaitVisibility>)
    ensures
        handle == 0 ==> next is None,
        handle != 0 ==> next == Some(AwaitVisibility { handle }),
{
    if handle == 0 {
        None
    } else {
        Some(AwaitVisibility { handle })
    }
}

impl AwaitVisibility {
    /// Takes the answer whether the window is visible, and drops a window
    /// that is not.
    pub fn visibility(self, visible: bool) -> (next: Option<AwaitCloak>)
        ensures
            !visible ==> next is None,
            visible ==> next == Some(AwaitCloak { handle: self.handle }),
    {
        if visible {
            Some(AwaitCloak { handle: self.handle })
        } else {
            None
        }
    }
}

impl AwaitCloak {
    /// Takes the window's cloak attribute, `None` where it could not be
    /// read, and drops a window that the system hides.
    pub fn cloak(self, cloak: Option<u32>) -> (next: Option<AwaitProcessId>)
        ensures
            is_cloaked(cloak) ==> next is None,
            !is_cloaked(cloak) ==> next == Some(AwaitProcessId { handle: self.handle }),
    {
        match cloak {
            Some(value) => {
                if value != 0 {
                    return None;
                }
            },
            None => {},
        }
        Some(AwaitProcessId { handle: self.handle })
    }
}

impl AwaitProcessId {
    /// Takes the process that owns the window.
    pub fn process_id(self, process_id: u32) -> (next: AwaitTitleLength)
        ensures
            next == (AwaitTitleLength { handle: self.handle, process_id }),
    {
        AwaitTitleLength { handle: self.handle, process_id }
    }
}

impl AwaitTitleLength {
    /// Takes the length that the window manager gives for the title, and
    /// drops a window without one.
    pub fn title_length(self, length: i32) -> (next: Option<AwaitTitle>)
        ensures
            length == 0 ==> next is None,
            length != 0 ==> next == Some(
                AwaitTitle { handle: self.handle, process_id: self.process_id },
            ),
    {
        if length == 0 {
            None
        } else {
            Some(AwaitTitle { handle: self.handle, process_id: self.process_id })
        }
    }
}

impl AwaitTitle {
    /// Takes the title as it was read, and drops a window whose title is
    /// empty: a title can be gone by the time it is read, though its length
    /// was not zero when that was asked. No process has been opened for the
    /// window yet, so nothing is to be closed.
    pub fn title(self, title: Vec<u16>) -> (next: Option<AwaitProcess>)
        ensures
            title@.len() == 0 ==> next is None,
            title@.len() != 0 ==> next == Some(
                AwaitProcess { handle: self.handle, process_id: self.process_id, title },
            ),
    {
        if title.len() == 0 {
            None
        } else {
            Some(AwaitProcess { handle: self.handle, process_id: self.process_id, title })
        }
    }
}

impl AwaitProcess {
    /// Takes the handle on the owning process, `None` where the process
    /// could not be opened, and drops the window then: nothing is open, and
    /// nothing is to be closed.
    pub fn process(self, opened: Option<isize>) -> (next: Option<AwaitImagePath>)
        ensures
            opened is None ==> next is None,
            opened is Some ==> next == Some(
                AwaitImagePath {
                    handle: self.handle,
                    process_id: self.process_id,
                    title: self.title,
                    process: opened.unwrap(),
                },
            ),
    {
        match opened {
            Some(process) => Some(
                AwaitImagePath {
                    handle: self.handle,
                    process_id: self.process_id,
                    title: self.title,
                    process,
                },
            ),
            None => None,
        }
    }
}

impl AwaitImagePath {
    /// Takes the path of the owner's executable, `None` where the process
    /// did not give it. Either way the process is to be closed next.
    pub fn image_path(self, image_path: Option<Vec<u16>>) -> (next: AwaitClose)
        ensures
            next == (AwaitClose {
                handle: self.handle,
                process_id: self.process_id,
                title: self.title,
                process: self.process,
                image_path,
            }),
    {
        AwaitClose {
            handle: self.handle,
            process_id: self.process_id,
            title: self.title,
            process: self.process,
            image_path,
        }
    }
}

impl AwaitClose {
    /// The owner gave no path, or one that belongs to the system's own
    /// shell.
    pub open spec fn stays_unlisted(self) -> bool {
        self.image_path is None || is_system_app(self.image_path.unwrap()@)
    }

    /// Takes note that the owning process was closed, and drops a window
    /// whose owner gave no path or belongs to the system's own shell.
    pub fn closed(self) -> (next: Option<AwaitDpi>)
        ensures
            self.stays_unlisted() ==> next is None,
            !self.stays_unlisted() ==> next == Some(
                AwaitDpi {
                    handle: self.handle,
                    process_id: self.process_id,
                    title: self.title,
                    image_path: self.image_path.unwrap(),
                },
            ),
    {
        match self.image_path {
            Some(image_path) => {
                if in_system_apps(image_path.as_slice()) {
                    None
                } else {
                    Some(
                        AwaitDpi {
                            handle: self.handle,
                            process_id: self.process_id,
                            title: self.title,
                            image_path,
                        },
                    )
                }
            },
            None => None,
        }
    }
}

impl AwaitDpi {
    /// Takes the DPI of the window, zero where the system cannot tell.
    pub fn dpi(self, dpi: u32) -> (next: AwaitRect)
        ensures
            next == (AwaitRect {
                handle: self.handle,
                process_id: self.process_id,
                title: self.title,
                image_path: self.image_path,
                dpi,
            }),
    {
        AwaitRect {
            handle: self.handle,
            process_id: self.process_id,
            title: self.title,
            image_path: self.image_path,
            dpi,
        }
    }
}

impl AwaitRect {
    /// Takes the window's rectangle, `None` where it could not be read, and
    /// gives the window to list.
    pub fn rect(self, rect: Option<Rect>) -> (window: Window)
        ensures
            window@ == (WindowView {
                window_id: window_id_of(self.handle),
                name: utf16_lossy(self.title@),
                owner_name: utf16_lossy(owner_units(self.image_path@)),
                process_id: self.process_id,
                bounds: Bounds::of_window(rect_or_origin(rect), self.dpi),
            }),
            window.name@.len() == 0 <==> self.title@.len() == 0,
    {
        let rect = match rect {
            Some(rect) => rect,
            None => Rect::default(),
        };
        Window {
            window_id: window_id(self.handle),
            name: decode_lossy(self.title.as_slice()),
            owner_name: owner_name(self.image_path.as_slice()),
            process_id: self.process_id,
            bounds: Bounds::window(rect, self.dpi),
        }
    }
}

/// The window that a picker lists for `candidate`, if it lists one.
pub fn inspect(candidate: &Candidate) -> (window: Option<Window>)
    ensures
        window is None ==> admitted(*candidate) is None,
        window is Some ==> admitted(*candidate) == Some(window.unwrap()@),
        window is Some ==> window.unwrap().name@.len() > 0,
{
    let stage = begin(candidate.handle)?;
    let stage = stage.visibility(candidate.visible)?;
    let stage = stage.cloak(candidate.cloak)?;
    let stage = stage.process_id(candidate.process_id);
    let stage = stage.title_length(candidate.title_length)?;
    let stage = stage.title(copy_of(&candidate.title))?;
    let stage = stage.process(candidate.process)?;
    let stage = stage.image_path(
        match &candidate.image_path {
            Some(path) => Some(copy_of(path)),
            None => None,
        },
    );
    let stage = stage.closed()?;
    let stage = stage.dpi(candidate.dpi);
    Some(stage.rect(candidate.rect))
}

/// The windows that a picker lists for `candidates`, in the order in which
/// the window manager went through them.
pub fn get_on_screen_windows(candidates: &Vec<Candidate>) -> (windows: Vec<Window>)
    ensures
        views(windows@) == listed(candidates@),
        forall|i: int|
            0 <= i < windows.len() ==> (#[trigger] windows[i]).bounds.x >= 0 && windows[i].bounds.y
                >= 0 && windows[i].bounds.well_formed(),
        forall|i: int| 0 <= i < windows.len() ==> (#[trigger] windows[i]).name@.len() > 0,
{
    let mut windows: Vec<Window> = Vec::new();
    let mut at: usize = 0;
    assert(candidates@.take(0) =~= Seq::<Candidate>::empty());
    assert(views(windows@) =~= listed(candidates@.take(0)));
    while at < candidates.len()
        invariant
            at <= candidates.len(),
            views(windows@) == listed(candidates@.take(at as int)),
            forall|i: int|
                0 <= i < windows.len() ==> (#[trigger] windows[i]).bounds.x >= 0
                    && windows[i].bounds.y >= 0 && windows[i].bounds.well_formed(),
            forall|i: int| 0 <= i < windows.len() ==> (#[trigger] windows[i]).name@.len() > 0,
        decreases candidates.len() - at,
    {
        let ghost before = windows@;
        let ghost upto = candidates@.take(at as int + 1);
        assert(upto.drop_last() =~= candidates@.take(at as int));
        assert(upto.last() == candidates@[at as int]);
        match inspect(&candidates[at]) {
            Some(window) => {
                windows.push(window);
                assert(views(windows@) =~= views(before).push(window@));
            },
            None => {},
        }
        at += 1;
    }
    assert(candidates@.take(at as int) =~= candidates@);
    windows
}

/// A window that is listed lies at or right of and below the origin, and
/// has a usable divisor.
pub proof fn listed_window_is_on_screen(candidate: Candidate)
    requires
        admitted(candidate) is Some,
    ensures
        admitted(candidate).unwrap().bounds.x >= 0,
        admitted(candidate).unwrap().bounds.y >= 0,
        admitted(candidate).unwrap().bounds.well_formed(),
{
}

/// A window that is listed has a title: one that the window manager gave a
/// length other than zero, and that was not empty when it was read.
pub proof fn listed_window_has_a_title(candidate: Candidate)
    requires
        admitted(candidate) is Some,
    ensures
        candidate.title_length != 0,
        candidate.title@.len() > 0,
{
}

/// A window that is listed has an owner whose executable is known and does
/// not belong to the system's own shell.
pub proof fn listed_window_is_no_system_app(candidate: Candidate)
    requires
        admitted(candidate) is Some,
    ensures
        candidate.image_path is Some,
        !is_system_app(candidate.image_path.unwrap()@),
{
}

/// Every window in the list is the one admitted for some candidate.
pub proof fn listed_window_has_a_candidate(candidates: Seq<Candidate>, i: int)
    requires
        0 <= i < listed(candidates).len(),
    ensures
        exists|j: int|
            0 <= j < candidates.len() && admitted(#[trigger] candidates[j]) == Some(
                listed(candidates)[i],
            ),
    decreases candidates.len(),
{
    let before = candidates.drop_last();
    if i < listed(before).len() {
        listed_window_has_a_candidate(before, i);
        let j = choose|j: int|
            0 <= j < before.len() && admitted(#[trigger] before[j]) == Some(listed(before)[i]);
        assert(candidates[j] == before[j]);
    } else {
        assert(admitted(candidates[candidates.len() - 1]) == Some(listed(candidates)[i]));
    }
}

/// Going through fewer candidates lists fewer windows, not other ones: the
/// windows listed for the candidates up to some point are the first of the
/// windows listed for all of them. A run of the window manager that is cut
/// short therefore leaves a part of the full list, in the same order.
pub proof fn shorter_run_lists_a_prefix(candidates: Seq<Candidate>, seen: int)
    requires
        0 <= seen <= candidates.len(),
    ensures
        listed(candidates.take(seen)).is_prefix_of(listed(candidates)),
    decreases candidates.len() - seen,
{
    if seen == candidates.len() {
        assert(candidates.take(seen) =~= candidates);
    } else {
        let longer = candidates.take(seen + 1);
        assert(longer.drop_last() =~= candidates.take(seen));
        shorter_run_lists_a_prefix(candidates, seen + 1);
    }
}

} // verus!
