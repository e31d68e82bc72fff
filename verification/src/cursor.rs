//! The shape of the cursor on screen, told by its handle.

use vstd::prelude::*;

verus! {

/// What a cursor looks like to the user.
///
/// `Unknown` says that the system could not be asked; `Hidden` says that it
/// answered with a handle that belongs to none of its standard cursors, as
/// it does while no cursor is shown.
#[derive(Clone, Copy, Debug, PartialEq, Eq, Structural)]
pub enum CursorShape {
    Arrow,
    IBeam,
    Wait,
    Crosshair,
    ResizeUp,
    ResizeLeftRight,
    ResizeUpDown,
    ResizeUpLeftAndDownRight,
    ResizeUpRightAndDownLeft,
    ResizeAll,
    OpenHand,
    NotAllowed,
    Appstarting,
    Help,
    Hidden,
    Unknown,
}

/// The handles of the system's standard cursors.
///
/// The handles are loaded once and stay valid while the process lives; a
/// handle is a number to compare, nothing more.
#[derive(Clone, Copy, Debug, PartialEq, Eq)]
pub struct DefaultCursors {
    pub arrow: isize,
    pub ibeam: isize,
    pub wait: isize,
    pub cross: isize,
    pub up_arrow: isize,
    pub size_nwse: isize,
    pub size_nesw: isize,
    pub size_we: isize,
    pub size_ns: isize,
    pub size_all: isize,
    pub no: isize,
    pub hand: isize,
    pub appstarting: isize,
    pub help: isize,
    pub pin: isize,
    pub person: isize,
}

/// The shape listed with the first entry of `table` that holds `handle`, and
/// `Hidden` where no entry holds it.
pub open spec fn first_match(table: Seq<(isize, CursorShape)>, handle: isize) -> CursorShape
    decreases table.len(),
{
    if table.len() == 0 {
        CursorShape::Hidden
    } else if table[0].0 == handle {
        table[0].1
    } else {
        first_match(table.drop_first(), handle)
    }
}

impl DefaultCursors {
    /// Each standard cursor's handle with the shape it stands for, in the
    /// order in which a handle is looked up. The pin and the person both
    /// count as an open hand.
    pub open spec fn table(self) -> Seq<(isize, CursorShape)> {
        seq![
            (self.arrow, CursorShape::Arrow),
            (self.ibeam, CursorShape::IBeam),
            (self.wait, CursorShape::Wait),
            (self.cross, CursorShape::Crosshair),
            (self.up_arrow, CursorShape::ResizeUp),
            (self.size_we, CursorShape::ResizeLeftRight),
            (self.size_ns, CursorShape::ResizeUpDown),
            (self.size_nwse, CursorShape::ResizeUpLeftAndDownRight),
            (self.size_nesw, CursorShape::ResizeUpRightAndDownLeft),
            (self.size_all, CursorShape::ResizeAll),
            (self.hand, CursorShape::OpenHand),
            (self.no, CursorShape::NotAllowed),
            (self.appstarting, CursorShape::Appstarting),
            (self.help, CursorShape::Help),
            (self.pin, CursorShape::OpenHand),
            (self.person, CursorShape::OpenHand),
        ]
    }

    /// The shape of the cursor with this handle.
    pub open spec fn shape_of(self, handle: isize) -> CursorShape {
        first_match(self.table(), handle)
    }

    /// The shape of the cursor with this handle.
    pub fn classify(&self, handle: isize) -> (shape: CursorShape)
        ensures
            shape == self.shape_of(handle),
    {
        let ghost table = self.table();
        if handle == self.arrow {
            proof { lemma_first_match(table, handle, 0); }
            CursorShape::Arrow
        } else if handle == self.ibeam {
            proof { lemma_first_match(table, handle, 1); }
            CursorShape::IBeam
        } else if handle == self.wait {
            proof { lemma_first_match(table, handle, 2); }
            CursorShape::Wait
        } else if handle == self.cross {
            proof { lemma_first_match(table, handle, 3); }
            CursorShape::Crosshair
        } else if handle == self.up_arrow {
            proof { lemma_first_match(table, handle, 4); }
            CursorShape::ResizeUp
        } else if handle == self.size_we {
            proof { lemma_first_match(table, handle, 5); }
            CursorShape::ResizeLeftRight
        } else if handle == self.size_ns {
            proof { lemma_first_match(table, handle, 6); }
            CursorShape::ResizeUpDown
        } else if handle == self.size_nwse {
            proof { lemma_first_match(table, handle, 7); }
            CursorShape::ResizeUpLeftAndDownRight
        } else if handle == self.size_nesw {
            proof { lemma_first_match(table, handle, 8); }
            CursorShape::ResizeUpRightAndDownLeft
        } else if handle == self.size_all {
            proof { lemma_first_match(table, handle, 9); }
            CursorShape::ResizeAll
        } else if handle == self.hand {
            proof { lemma_first_match(table, handle, 10); }
            CursorShape::OpenHand
        } else if handle == self.no {
            proof { lemma_first_match(table, handle, 11); }
            CursorShape::NotAllowed
        } else if handle == self.appstarting {
            proof { lemma_first_match(table, handle, 12); }
            CursorShape::Appstarting
        } else if handle == self.help {
            proof { lemma_first_match(table, handle, 13); }
            CursorShape::Help
        } else if handle == self.pin || handle == self.person {
            proof {
                if handle == self.pin {
                    lemma_first_match(table, handle, 14);
                } else {
                    lemma_first_match(table, handle, 15);
                }
            }
            CursorShape::OpenHand
        } else {
            proof { lemma_no_match(table, handle); }
            CursorShape::Hidden
        }
    }
}

/// The shape of the cursor on screen, from what the system answered when it
/// was asked for that cursor's handle: `None` where it gave no answer.
pub fn get_cursor_shape(cursors: &DefaultCursors, live: Option<isize>) -> (shape: CursorShape)
    ensures
        live is None ==> shape == CursorShape::Unknown,
        live is Some ==> shape == cursors.shape_of(live.unwrap()),
{
    match live {
        Some(handle) => cursors.classify(handle),
        None => CursorShape::Unknown,
    }
}

proof fn lemma_first_match(table: Seq<(isize, CursorShape)>, handle: isize, entry: int)
    requires
        0 <= entry < table.len(),
        table[entry].0 == handle,
        forall|j: int| 0 <= j < entry && table[j].0 == handle ==> table[j].1 == table[entry].1,
    ensures
        first_match(table, handle) == table[entry].1,
    decreases table.len(),
{
    if table[0].0 != handle {
        let rest = table.drop_first();
        assert forall|j: int| 0 <= j < entry - 1 && rest[j].0 == handle implies rest[j].1
            == rest[entry - 1].1 by {
            assert(rest[j] == table[j + 1]);
        }
        lemma_first_match(rest, handle, entry - 1);
    }
}

proof fn lemma_no_match(table: Seq<(isize, CursorShape)>, handle: isize)
    requires
        forall|j: int| 0 <= j < table.len() ==> table[j].0 != handle,
    ensures
        first_match(table, handle) == CursorShape::Hidden,
    decreases table.len(),
{
    if table.len() > 0 {
        let rest = table.drop_first();
        assert forall|j: int| 0 <= j < rest.len() implies rest[j].0 != handle by {
            assert(rest[j] == table[j + 1]);
        }
        lemma_no_match(rest, handle);
    }
}

/// A handle of the table gets the shape that its entry lists, unless an
/// earlier entry holds the same handle with another shape.
pub proof fn listed_handle_gets_its_shape(cursors: DefaultCursors, entry: int)
    requires
        0 <= entry < cursors.table().len(),
        forall|j: int|
            0 <= j < entry && cursors.table()[j].0 == cursors.table()[entry].0
                ==> cursors.table()[j].1 == cursors.table()[entry].1,
    ensures
        cursors.shape_of(cursors.table()[entry].0) == cursors.table()[entry].1,
{
    lemma_first_match(cursors.table(), cursors.table()[entry].0, entry);
}

/// A handle that no entry of the table holds is the hidden cursor's.
pub proof fn unlisted_handle_is_hidden(cursors: DefaultCursors, handle: isize)
    requires
        forall|j: int| 0 <= j < cursors.table().len() ==> cursors.table()[j].0 != handle,
    ensures
        cursors.shape_of(handle) == CursorShape::Hidden,
{
    lemma_no_match(cursors.table(), handle);
}

} // verus!
