use vstd::prelude::*;

verus! {

use crate::buffer::{Buffer, EditorError, IoError};
use vstd::utf8::{valid_utf8, decode_utf8};

/// The tab control kept for one buffer: the label it was created with and
/// whether it is currently presented as the active tab.
pub struct BufferTab {
    /// The text shown on the tab, fixed when the tab is created.
    pub label: String,

    /// Whether this tab is styled as the active one.
    pub active: bool,
}

impl BufferTab {
    /// Make a new tab with the given label; a tab starts out inactive.
    fn new(label: String) -> (tab: BufferTab)
        ensures
            tab.label == label,
            !tab.active,
    {
        BufferTab { label, active: false }
    }

    /// Update whether this tab is presented as active.
    fn set_active(&mut self, active: bool)
        ensures
            final(self).label == old(self).label,
            final(self).active == active,
    {
        self.active = active;
    }
}

/// Owns all the editor state for one window: the open buffers, the tab per
/// buffer, and which buffer is selected.
pub struct EditorWindow {
    /// The buffers from this editor window.
    pub buffers: Vec<Buffer>,

    /// The index of the open buffer.
    pub selected_buffer: usize,

    /// The tabs for each buffer. Indexes match with the buffers array.
    pub buffer_buttons: Vec<BufferTab>,
}

impl EditorWindow {
    /// The tab row mirrors the buffer list: one tab per buffer, each label
    /// fixed to its buffer's title, the selected index in range (and parked
    /// at zero while the window is empty), and no tab active except possibly
    /// the selected one.
    pub open spec fn tabs_match(self) -> bool {
        &&& self.buffer_buttons@.len() == self.buffers@.len()
        &&& (self.buffers@.len() == 0 ==> self.selected_buffer == 0)
        &&& (self.buffers@.len() > 0 ==> (self.selected_buffer as int) < self.buffers@.len())
        &&& (forall|j: int| 0 <= j < self.buffers@.len()
                ==> ((#[trigger] self.buffer_buttons@[j]).label@
                    == self.buffers@[j].spec_button_name()))
        &&& (forall|j: int| 0 <= j < self.buffers@.len()
                ==> ((#[trigger] self.buffer_buttons@[j]).active
                    ==> j == self.selected_buffer as int))
    }

    /// A settled window: the tab row mirrors the buffers and, as soon as any
    /// buffer is open, the selected buffer's tab is the active one.
    pub open spec fn wf(self) -> bool {
        &&& self.tabs_match()
        &&& (self.buffers@.len() > 0 ==> self.buffer_buttons@[self.selected_buffer as int].active)
    }

    /// Make a new editor window, holding no buffers yet.
    pub fn new() -> (w: EditorWindow)
        ensures
            w.wf(),
            w.buffers@.len() == 0,
            w.buffer_buttons@.len() == 0,
            w.selected_buffer == 0,
    {
        EditorWindow { buffers: Vec::new(), selected_buffer: 0, buffer_buttons: Vec::new() }
    }

    /// Select a buffer: deactivate the tab of the previously selected buffer
    /// if it is a different one, activate the tab at `buf_index`, and record
    /// the new selection.
    pub fn select_buffer(&mut self, buf_index: usize)
        requires
            old(self).tabs_match(),
            (buf_index as int) < old(self).buffers@.len(),
        ensures
            final(self).wf(),
            select_post(*old(self), buf_index as int, *final(self)),
    {
        if buf_index != self.selected_buffer {
            let previous = self.selected_buffer;
            self.buffer_buttons[previous].set_active(false);
        }

        self.buffer_buttons[buf_index].set_active(true);

        self.selected_buffer = buf_index;
    }

    /// Add an empty buffer to the window.
    pub fn add_empty_buffer(&mut self, select: bool)
        requires
            old(self).tabs_match(),
        ensures
            final(self).tabs_match(),
            select ==> final(self).wf(),
            old(self).wf() && old(self).buffers@.len() > 0 ==> final(self).wf(),
            add_post(*old(self), select, *final(self)),
            final(self).buffers@.last().source_path() is None,
            final(self).buffers@.last().text() == Seq::<char>::empty(),
    {
        self.add_buffer(Buffer::empty(), select);
    }

    /// Open the given file in the window, from the outcome of reading it. On
    /// any failure the window is left exactly as it was; on success the new
    /// buffer holds the decoded file text and its index is returned.
    pub fn open_file(
        &mut self,
        path: String,
        read: Result<Vec<u8>, IoError>,
        select: bool,
    ) -> (r: Result<usize, EditorError>)
        requires
            old(self).tabs_match(),
        ensures
            final(self).tabs_match(),
            r is Ok && select ==> final(self).wf(),
            old(self).wf() && old(self).buffers@.len() > 0 ==> final(self).wf(),
            read matches Err(k) ==> {
                &&& r == Err::<usize, EditorError>(EditorError::IOError(k))
                &&& *final(self) == *old(self)
            },
            read matches Ok(bytes) ==> (if valid_utf8(bytes@) {
                &&& r is Ok
                &&& r->Ok_0 as int == old(self).buffers@.len()
                &&& add_post(*old(self), select, *final(self))
                &&& final(self).buffers@.last().source_path() == Some(path@)
                &&& final(self).buffers@.last().text() == decode_utf8(bytes@)
            } else {
                &&& r == Err::<usize, EditorError>(EditorError::DecodeError)
                &&& *final(self) == *old(self)
            }),
    {
        match Buffer::from_path(path, read) {
            Ok(buf) => Ok(self.add_buffer(buf, select)),
            Err(e) => Err(e),
        }
    }

    /// Adds a buffer, selecting it if asked to. Returns its index.
    pub fn add_buffer(&mut self, buf: Buffer, select: bool) -> (index: usize)
        requires
            old(self).tabs_match(),
        ensures
            final(self).tabs_match(),
            select ==> final(self).wf(),
            old(self).wf() && old(self).buffers@.len() > 0 ==> final(self).wf(),
            index as int == old(self).buffers@.len(),
            final(self).buffers@ == old(self).buffers@.push(buf),
            add_post(*old(self), select, *final(self)),
    {
        self.buffers.push(buf);

        let index = self.buffers.len() - 1;
        self.make_buffer_tab(index);

        if select {
            self.select_buffer(index);
        }

        index
    }

    /// Adds the tab for the buffer most recently pushed: its label is that
    /// buffer's title and it starts out inactive.
    fn make_buffer_tab(&mut self, buf_index: usize)
        requires
            old(self).buffers@.len() > 0,
            buf_index as int == old(self).buffers@.len() - 1,
            old(self).buffer_buttons@.len() == old(self).buffers@.len() - 1,
        ensures
            final(self).buffers == old(self).buffers,
            final(self).selected_buffer == old(self).selected_buffer,
            final(self).buffer_buttons@.len() == old(self).buffers@.len(),
            forall|j: int| 0 <= j < old(self).buffer_buttons@.len()
                ==> final(self).buffer_buttons@[j] == old(self).buffer_buttons@[j],
            final(self).buffer_buttons@.last().label@
                == old(self).buffers@[buf_index as int].spec_button_name(),
            !final(self).buffer_buttons@.last().active,
    {
        let label = self.buffers[buf_index].button_name().to_owned();
        self.buffer_buttons.push(BufferTab::new(label));
    }
}

/// There is always one tab per buffer: in any reachable window state the
/// tab row and the buffer list have the same length.
pub proof fn lemma_one_tab_per_buffer(w: EditorWindow)
    requires
        w.tabs_match(),
    ensures
        w.buffer_buttons@.len() == w.buffers@.len(),
{
}

/// As soon as a window holds at least one buffer and has settled, exactly
/// one tab is active, and it is the tab of the selected buffer.
pub proof fn lemma_one_active_tab(w: EditorWindow)
    requires
        w.wf(),
        w.buffers@.len() > 0,
    ensures
        (w.selected_buffer as int) < w.buffer_buttons@.len(),
        w.buffer_buttons@[w.selected_buffer as int].active,
        forall|j: int| 0 <= j < w.buffer_buttons@.len() && j != w.selected_buffer as int
            ==> !(#[trigger] w.buffer_buttons@[j]).active,
{
}

/// Selecting the same buffer twice in a row is idempotent: a window that
/// selecting buffer `i` produced is a fixed point of selecting `i` again,
/// so the second call yields the same active-tab set as the first.
pub proof fn lemma_select_buffer_idempotent(pre: EditorWindow, i: int, post: EditorWindow)
    requires
        select_post(pre, i, post),
    ensures
        select_post(post, i, post),
{
}

/// How one window state follows from another by appending a buffer: one
/// buffer and one tab are added at the end, everything already there keeps
/// its place and label, the new tab carries the new buffer's title, and the
/// selection either moves to the new buffer (when `select` is set, making
/// its tab the one active tab) or stays exactly where it was.
pub open spec fn add_post(pre: EditorWindow, select: bool, post: EditorWindow) -> bool {
    let n = pre.buffers@.len() as int;
    &&& post.buffers@.len() == n + 1
    &&& (forall|j: int| 0 <= j < n ==> #[trigger] post.buffers@[j] == pre.buffers@[j])
    &&& post.buffer_buttons@.len() == n + 1
    &&& (forall|j: int| 0 <= j < n
            ==> ((#[trigger] post.buffer_buttons@[j]).label == pre.buffer_buttons@[j].label))
    &&& post.buffer_buttons@[n].label@ == post.buffers@[n].spec_button_name()
    &&& (if select {
        &&& post.selected_buffer as int == n
        &&& (forall|j: int| 0 <= j <= n
                ==> ((#[trigger] post.buffer_buttons@[j]).active <==> j == n))
    } else {
        &&& post.selected_buffer == pre.selected_buffer
        &&& (forall|j: int| 0 <= j < n
                ==> ((#[trigger] post.buffer_buttons@[j]).active
                    == pre.buffer_buttons@[j].active))
        &&& !post.buffer_buttons@[n].active
    })
}

/// How one window state follows from another by selecting buffer `i`: the
/// buffers and the tab labels are untouched, `i` is recorded as selected,
/// and `i`'s tab is the one active tab.
pub open spec fn select_post(pre: EditorWindow, i: int, post: EditorWindow) -> bool {
    &&& post.buffers == pre.buffers
    &&& post.selected_buffer as int == i
    &&& post.buffer_buttons@.len() == pre.buffer_buttons@.len()
    &&& (forall|j: int| 0 <= j < pre.buffer_buttons@.len()
            ==> ((#[trigger] post.buffer_buttons@[j]).label == pre.buffer_buttons@[j].label))
    &&& (forall|j: int| 0 <= j < pre.buffer_buttons@.len()
            ==> ((#[trigger] post.buffer_buttons@[j]).active <==> j == i))
}

} // verus!
