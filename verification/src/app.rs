//! The application state and its modal dispatcher.
//!
//! One `App` value owns the whole session state. Every mutation funnels
//! through the dispatcher, which routes each keystroke to the handler
//! of the active mode, and through the preview refresher, which keeps
//! the preview pane approximately current under a debounce. Anything
//! the outside world must do for the core — rebuild a snapshot, delete
//! a file, run a command line — is returned as an `Action` for the
//! shell to perform.

use crate::events::{KeyCode, KeyInput};
use crate::snapshot::{FileEntry, FileManager};
use vstd::arithmetic::div_mod::{
    lemma_add_mod_noop, lemma_fundamental_div_mod, lemma_mod_division_less_than_divisor,
    lemma_mod_multiples_vanish, lemma_mod_sub_multiples_vanish, lemma_small_mod,
};
use vstd::prelude::*;

verus! {

/// The debounce interval of the preview refresher, in milliseconds.
pub const DEBOUNCE_MS: u64 = 100;

/// The preview pane holds at most this many characters.
pub const PREVIEW_CAP: usize = 1000;

/// The input modes of the dispatcher.
#[derive(Debug, Clone, Copy, PartialEq, Eq, Structural)]
pub enum Mode {
    Normal,
    Insert,
    Command,
    Visual,
}

/// What the shell must do after a dispatch cycle. The dispatcher only
/// decides; the shell performs the filesystem or collaborator work and
/// reports back through `apply_navigation` or the error setters.
#[derive(Debug, PartialEq, Eq)]
pub enum Action {
    /// Nothing to do.
    Idle,
    /// Leave the main loop.
    Quit,
    /// Rebuild the snapshot from the parent directory, if one exists.
    NavigateParent,
    /// Rebuild the snapshot from this directory.
    Navigate(String),
    /// Delete the selected entry.
    Delete,
    /// Edit the selected entry.
    Edit,
    /// Rename the selected entry.
    Rename,
    /// Create a new file.
    Create,
    /// Parse and run this command line.
    Execute(String),
}

/// The whole session state, owned by the main loop and mutated only by
/// the dispatcher and the preview refresher.
pub struct App {
    pub file_manager: FileManager,
    pub current_path: String,
    pub selected_index: usize,
    pub mode: Mode,
    pub command_buffer: String,
    pub preview_content: String,
    pub error_message: Option<String>,
    pub last_update: u64,
}

/// Circular wrap of a selection move: the new index after moving by
/// `delta` among `len` entries.
pub open spec fn wrapped_index(cur: int, delta: int, len: int) -> int
    recommends
        len > 0,
{
    (cur + delta) % len
}

impl App {
    /// The number of entries of the active snapshot.
    pub open spec fn entries_len(&self) -> nat {
        self.file_manager.entries@.len()
    }

    /// The selection is valid for the snapshot, or the snapshot is
    /// empty and the selection rests at zero.
    pub open spec fn wf(&self) -> bool {
        if self.entries_len() == 0 {
            self.selected_index == 0
        } else {
            (self.selected_index as nat) < self.entries_len()
        }
    }

    /// A fresh session over a snapshot: Normal mode, selection at the
    /// top, empty buffers, no error, preview clock started at `now_ms`.
    pub fn new(file_manager: FileManager, path: String, now_ms: u64) -> (r: App)
        ensures
            r.wf(),
            r.file_manager == file_manager,
            r.current_path == path,
            r.selected_index == 0,
            r.mode == Mode::Normal,
            r.command_buffer@ == Seq::<char>::empty(),
            r.preview_content@ == Seq::<char>::empty(),
            r.error_message is None,
            r.last_update == now_ms,
    {
        App {
            file_manager,
            current_path: path,
            selected_index: 0,
            mode: Mode::Normal,
            command_buffer: String::new(),
            preview_content: String::new(),
            error_message: None,
            last_update: now_ms,
        }
    }

    /// A selection move on the state: a no-op on an empty snapshot,
    /// else a circular wrap by `delta`.
    pub open spec fn spec_move(self, delta: int) -> App {
        if self.entries_len() == 0 {
            self
        } else {
            App {
                selected_index: wrapped_index(
                    self.selected_index as int,
                    delta,
                    self.entries_len() as int,
                ) as usize,
                ..self
            }
        }
    }

    /// Move the selection by `delta`, wrapping circularly; a no-op when
    /// the snapshot is empty.
    pub fn move_selection(&mut self, delta: isize)
        requires
            old(self).wf(),
        ensures
            final(self).wf(),
            *final(self) == old(self).spec_move(delta as int),
    {
        let len = self.file_manager.entries.len();
        if len > 0 {
            let cur = self.selected_index;
            let m: usize = if delta >= 0 {
                let m0 = (delta as usize) % len;
                proof {
                    lemma_mod_division_less_than_divisor(delta as int, len as int);
                }
                m0
            } else {
                let k = ((-(delta + 1)) as usize) % len;
                proof {
                    lemma_mod_division_less_than_divisor(-(delta as int) - 1, len as int);
                }
                len - 1 - k
            };
            let next = if cur >= len - m {
                cur - (len - m)
            } else {
                cur + m
            };
            proof {
                let c = cur as int;
                let d = delta as int;
                let l = len as int;
                assert(0 <= m < l);
                lemma_mod_division_less_than_divisor(c + d, l);
                if d >= 0 {
                    lemma_add_mod_noop(c, d, l);
                    lemma_small_mod(cur as nat, len as nat);
                    assert((c + m as int) % l == (c + d) % l);
                } else {
                    let big = -(d) - 1;
                    let q = big / l;
                    lemma_fundamental_div_mod(big, l);
                    assert(big == l * q + big % l);
                    assert(m as int == l - 1 - big % l);
                    assert(l * (q + 1) == l * q + l) by (nonlinear_arith);
                    assert(c + m as int == l * (q + 1) + (c + d));
                    lemma_mod_multiples_vanish(q + 1, c + d, l);
                    assert((c + m as int) % l == (c + d) % l);
                }
                if c + m as int >= l {
                    lemma_mod_sub_multiples_vanish(c + m as int, l);
                    assert((-l + (c + m as int)) % l == (c + m as int) % l);
                    lemma_small_mod((c + m as int - l) as nat, len as nat);
                    assert(next as int == (c + d) % l);
                } else {
                    lemma_small_mod((c + m as int) as nat, len as nat);
                    assert(next as int == (c + d) % l);
                }
            }
            self.selected_index = next;
        }
    }

    /// Record a collaborator failure for display.
    pub fn set_error(&mut self, msg: String)
        ensures
            *final(self) == (App { error_message: Some(msg), ..*old(self) }),
    {
        self.error_message = Some(msg);
    }

    /// Dismiss the error message.
    pub fn clear_error(&mut self)
        ensures
            *final(self) == (App { error_message: None, ..*old(self) }),
    {
        self.error_message = None;
    }

    /// Adopt a freshly rebuilt snapshot after a successful navigation:
    /// the new snapshot and path replace the old, the selection resets
    /// to the top, and any stale error is cleared. A failed rebuild
    /// never reaches this point: the shell keeps the prior state and
    /// reports the failure through `set_error`.
    pub fn apply_navigation(&mut self, path: String, manager: FileManager)
        ensures
            *final(self) == (App {
                file_manager: manager,
                current_path: path,
                selected_index: 0,
                error_message: None,
                ..*old(self)
            }),
            final(self).wf(),
    {
        self.file_manager = manager;
        self.current_path = path;
        self.selected_index = 0;
        self.error_message = None;
    }
}

/// Relies on String::push: appends exactly one character.
#[verifier::external_body]
fn push_char(s: &mut String, c: char)
    ensures
        final(s)@ == old(s)@.push(c),
{
    s.push(c)
}

/// The string holding exactly these characters, in order.
fn string_of(v: Vec<char>) -> (r: String)
    ensures
        r@ == v@,
{
    let mut r = String::new();
    let mut i: usize = 0;
    while i < v.len()
        invariant
            i <= v.len(),
            r@ == v@.subrange(0, i as int),
        decreases v.len() - i,
    {
        push_char(&mut r, v[i]);
        proof {
            assert(v@.subrange(0, i as int).push(v@[i as int]) =~= v@.subrange(0, i + 1));
        }
        i = i + 1;
    }
    proof {
        assert(v@.subrange(0, v@.len() as int) =~= v@);
    }
    r
}

/// What entering the selected entry does: a directory is navigated
/// into; a file, or an empty selection, is a no-op at the core level.
pub open spec fn nav_into_action(pre: App) -> Action {
    let s = pre.file_manager.entries@;
    if (pre.selected_index as int) < s.len() && !s[pre.selected_index as int].is_file {
        Action::Navigate(s[pre.selected_index as int].path)
    } else {
        Action::Idle
    }
}

/// The Normal-mode handler's contract, key by key.
pub open spec fn normal_post(pre: App, post: App, key: KeyInput, action: Action) -> bool {
    if key.code == KeyCode::Char('q') && key.ctrl {
        post == pre && action == Action::Quit
    } else if key.code == KeyCode::Char('j') || key.code == KeyCode::Down {
        post == pre.spec_move(1) && action == Action::Idle
    } else if key.code == KeyCode::Char('k') || key.code == KeyCode::Up {
        post == pre.spec_move(-1) && action == Action::Idle
    } else if key.code == KeyCode::Char('h') || key.code == KeyCode::Left {
        post == pre && action == Action::NavigateParent
    } else if key.code == KeyCode::Char('l') || key.code == KeyCode::Right || key.code
        == KeyCode::Enter {
        post == pre && action == nav_into_action(pre)
    } else if key.code == KeyCode::Char('i') {
        post == (App { mode: Mode::Insert, ..pre }) && action == Action::Idle
    } else if key.code == KeyCode::Char(':') {
        post == (App { mode: Mode::Command, ..pre }) && action == Action::Idle
    } else if key.code == KeyCode::Char('v') {
        post == (App { mode: Mode::Visual, ..pre }) && action == Action::Idle
    } else if key.code == KeyCode::Char('d') {
        post == pre && action == Action::Delete
    } else if key.code == KeyCode::Char('e') {
        post == pre && action == Action::Edit
    } else if key.code == KeyCode::Char('r') {
        post == pre && action == Action::Rename
    } else if key.code == KeyCode::Char('n') {
        post == pre && action == Action::Create
    } else {
        post == pre && action == Action::Idle
    }
}

/// The Insert- and Visual-mode handlers' contract: Escape returns to
/// Normal; everything else is a no-op.
pub open spec fn escape_post(pre: App, post: App, key: KeyInput, action: Action) -> bool {
    if key.code == KeyCode::Esc {
        post == (App { mode: Mode::Normal, ..pre }) && action == Action::Idle
    } else {
        post == pre && action == Action::Idle
    }
}

/// The Command-mode handler's contract: Escape abandons the buffer and
/// returns to Normal; Enter hands the buffer out for execution, clears
/// it and returns to Normal; printable characters accumulate.
pub open spec fn command_post(pre: App, post: App, key: KeyInput, action: Action) -> bool {
    if key.code == KeyCode::Esc {
        &&& post.mode == Mode::Normal
        &&& post.command_buffer@ == Seq::<char>::empty()
        &&& post.file_manager == pre.file_manager
        &&& post.current_path == pre.current_path
        &&& post.selected_index == pre.selected_index
        &&& post.preview_content == pre.preview_content
        &&& post.error_message == pre.error_message
        &&& post.last_update == pre.last_update
        &&& action == Action::Idle
    } else if key.code == KeyCode::Enter {
        &&& post.mode == Mode::Normal
        &&& post.command_buffer@ == Seq::<char>::empty()
        &&& post.file_manager == pre.file_manager
        &&& post.current_path == pre.current_path
        &&& post.selected_index == pre.selected_index
        &&& post.preview_content == pre.preview_content
        &&& post.error_message == pre.error_message
        &&& post.last_update == pre.last_update
        &&& action == Action::Execute(pre.command_buffer)
    } else {
        match key.code {
            KeyCode::Char(c) => {
                &&& post.mode == Mode::Command
                &&& post.command_buffer@ == pre.command_buffer@.push(c)
                &&& post.file_manager == pre.file_manager
                &&& post.current_path == pre.current_path
                &&& post.selected_index == pre.selected_index
                &&& post.preview_content == pre.preview_content
                &&& post.error_message == pre.error_message
                &&& post.last_update == pre.last_update
                &&& action == Action::Idle
            },
            _ => post == pre && action == Action::Idle,
        }
    }
}

/// What one dispatch does, by the mode that was active.
pub open spec fn dispatch_post(pre: App, post: App, key: KeyInput, action: Action) -> bool {
    match pre.mode {
        Mode::Normal => normal_post(pre, post, key, action),
        Mode::Insert => escape_post(pre, post, key, action),
        Mode::Command => command_post(pre, post, key, action),
        Mode::Visual => escape_post(pre, post, key, action),
    }
}

impl App {
    /// Route one keystroke to the handler of the active mode.
    pub fn handle_key_event(&mut self, key: KeyInput) -> (r: Action)
        requires
            old(self).wf(),
        ensures
            final(self).wf(),
            dispatch_post(*old(self), *final(self), key, r),
    {
        match self.mode {
            Mode::Normal => self.handle_normal_mode(key),
            Mode::Insert => self.handle_insert_mode(key),
            Mode::Command => self.handle_command_mode(key),
            Mode::Visual => self.handle_visual_mode(key),
        }
    }

    fn handle_normal_mode(&mut self, key: KeyInput) -> (r: Action)
        requires
            old(self).wf(),
        ensures
            final(self).wf(),
            normal_post(*old(self), *final(self), key, r),
    {
        if key.code == KeyCode::Char('q') && key.ctrl {
            Action::Quit
        } else if key.code == KeyCode::Char('j') || key.code == KeyCode::Down {
            self.move_selection(1);
            Action::Idle
        } else if key.code == KeyCode::Char('k') || key.code == KeyCode::Up {
            self.move_selection(-1);
            Action::Idle
        } else if key.code == KeyCode::Char('h') || key.code == KeyCode::Left {
            Action::NavigateParent
        } else if key.code == KeyCode::Char('l') || key.code == KeyCode::Right || key.code
            == KeyCode::Enter {
            let idx = self.selected_index;
            if idx < self.file_manager.entries.len() {
                let e = &self.file_manager.entries[idx];
                if !e.is_file {
                    return Action::Navigate(e.path.clone());
                }
            }
            Action::Idle
        } else if key.code == KeyCode::Char('i') {
            self.mode = Mode::Insert;
            Action::Idle
        } else if key.code == KeyCode::Char(':') {
            self.mode = Mode::Command;
            Action::Idle
        } else if key.code == KeyCode::Char('v') {
            self.mode = Mode::Visual;
            Action::Idle
        } else if key.code == KeyCode::Char('d') {
            Action::Delete
        } else if key.code == KeyCode::Char('e') {
            Action::Edit
        } else if key.code == KeyCode::Char('r') {
            Action::Rename
        } else if key.code == KeyCode::Char('n') {
            Action::Create
        } else {
            Action::Idle
        }
    }

    fn handle_insert_mode(&mut self, key: KeyInput) -> (r: Action)
        requires
            old(self).wf(),
        ensures
            final(self).wf(),
            escape_post(*old(self), *final(self), key, r),
    {
        if key.code == KeyCode::Esc {
            self.mode = Mode::Normal;
        }
        Action::Idle
    }

    fn handle_visual_mode(&mut self, key: KeyInput) -> (r: Action)
        requires
            old(self).wf(),
        ensures
            final(self).wf(),
            escape_post(*old(self), *final(self), key, r),
    {
        if key.code == KeyCode::Esc {
            self.mode = Mode::Normal;
        }
        Action::Idle
    }

    fn handle_command_mode(&mut self, key: KeyInput) -> (r: Action)
        requires
            old(self).wf(),
            old(self).mode == Mode::Command,
        ensures
            final(self).wf(),
            command_post(*old(self), *final(self), key, r),
    {
        if key.code == KeyCode::Esc {
            self.command_buffer = String::new();
            self.mode = Mode::Normal;
            Action::Idle
        } else if key.code == KeyCode::Enter {
            let cmd = self.command_buffer.clone();
            self.command_buffer = String::new();
            self.mode = Mode::Normal;
            Action::Execute(cmd)
        } else {
            match key.code {
                KeyCode::Char(c) => {
                    push_char(&mut self.command_buffer, c);
                    Action::Idle
                },
                _ => Action::Idle,
            }
        }
    }
}

/// The outcome of the shell's attempt to read the selected file.
#[derive(Debug)]
pub enum ReadOutcome {
    /// The file's characters, as far as they were read.
    Content(Vec<char>),
    /// The file could not be read as text.
    Unreadable,
}

/// Whether a refresh is due: more than the debounce interval has
/// passed since the last one.
pub open spec fn spec_preview_due(now_ms: u64, last_ms: u64) -> bool {
    now_ms - last_ms > DEBOUNCE_MS
}

/// The preview text for a directory.
pub open spec fn dir_placeholder() -> Seq<char> {
    "(Directory)"@
}

/// The preview text for a file that could not be read.
pub open spec fn unreadable_placeholder() -> Seq<char> {
    "(Binary or unreadable file)"@
}

/// File content capped to the configured preview size.
pub open spec fn capped_preview(v: Seq<char>) -> Seq<char> {
    if v.len() > PREVIEW_CAP {
        v.take(PREVIEW_CAP as int)
    } else {
        v
    }
}

impl App {
    /// The entry the selection rests on, if any.
    pub open spec fn spec_selected(self) -> Option<FileEntry> {
        if (self.selected_index as nat) < self.entries_len() {
            Some(self.file_manager.entries@[self.selected_index as int])
        } else {
            None
        }
    }

    /// Whether the selection rests on a plain file.
    pub open spec fn selected_is_file(self) -> bool {
        self.spec_selected() matches Some(e) && e.is_file
    }

    /// Whether the preview should be refreshed now.
    pub fn preview_due(&self, now_ms: u64) -> (r: bool)
        requires
            self.last_update <= now_ms,
        ensures
            r == spec_preview_due(now_ms, self.last_update),
    {
        now_ms - self.last_update > DEBOUNCE_MS
    }

    /// Refresh the preview if the debounce interval has elapsed. The
    /// shell reads the selected file beforehand exactly when a refresh
    /// is due and the selection rests on a file, and hands the outcome
    /// in; a directory gets a fixed placeholder, an unreadable file
    /// another, and the content of a readable one is capped. The
    /// refresh timestamp advances whether or not the read succeeded;
    /// when no refresh is due, nothing changes at all.
    pub fn update_preview(&mut self, now_ms: u64, read: Option<ReadOutcome>)
        requires
            old(self).wf(),
            old(self).last_update <= now_ms,
            (read is Some) <==> (spec_preview_due(now_ms, old(self).last_update)
                && old(self).selected_is_file()),
        ensures
            final(self).wf(),
            !spec_preview_due(now_ms, old(self).last_update) ==> *final(self) == *old(self),
            spec_preview_due(now_ms, old(self).last_update) ==> {
                &&& *final(self) == (App {
                    preview_content: final(self).preview_content,
                    last_update: now_ms,
                    ..*old(self)
                })
                &&& (old(self).spec_selected() is None ==> final(self).preview_content
                    == old(self).preview_content)
                &&& (old(self).spec_selected() matches Some(e) && !e.is_file
                    ==> final(self).preview_content@ == dir_placeholder())
                &&& (read matches Some(ReadOutcome::Content(v)) ==> final(self).preview_content@
                    == capped_preview(v@))
                &&& (read matches Some(ReadOutcome::Unreadable) ==> final(self).preview_content@
                    == unreadable_placeholder())
            },
    {
        if !self.preview_due(now_ms) {
            return ;
        }
        let idx = self.selected_index;
        if idx < self.file_manager.entries.len() {
            if self.file_manager.entries[idx].is_file {
                match read {
                    Some(ReadOutcome::Content(mut v)) => {
                        if v.len() > PREVIEW_CAP {
                            v.truncate(PREVIEW_CAP);
                            proof {
                                assert(v@ == capped_preview(v@));
                            }
                        }
                        self.preview_content = string_of(v);
                    },
                    Some(ReadOutcome::Unreadable) => {
                        self.preview_content = "(Binary or unreadable file)".to_owned();
                    },
                    None => {
                        proof {
                            assert(false);
                        }
                    },
                }
            } else {
                self.preview_content = "(Directory)".to_owned();
            }
        }
        self.last_update = now_ms;
    }
}

/// At most one read per debounce interval: once a refresh stamps the
/// clock at `first_ms`, a second attempt within the interval is not
/// due, so it changes nothing and triggers no read; only an attempt
/// beyond the interval is due again.
pub proof fn lemma_preview_debounce(first_ms: u64, second_ms: u64)
    requires
        first_ms <= second_ms,
    ensures
        second_ms - first_ms <= DEBOUNCE_MS ==> !spec_preview_due(second_ms, first_ms),
        second_ms - first_ms > DEBOUNCE_MS ==> spec_preview_due(second_ms, first_ms),
{
}

/// From Normal, `i`, `:` and `v` enter Insert, Command and Visual
/// respectively, with no other change of state.
pub proof fn lemma_mode_entry(pre: App, post: App, key: KeyInput, action: Action)
    requires
        pre.mode == Mode::Normal,
        dispatch_post(pre, post, key, action),
    ensures
        key.code == KeyCode::Char('i') ==> post == (App { mode: Mode::Insert, ..pre })
            && action == Action::Idle,
        key.code == KeyCode::Char(':') ==> post == (App { mode: Mode::Command, ..pre })
            && action == Action::Idle,
        key.code == KeyCode::Char('v') ==> post == (App { mode: Mode::Visual, ..pre })
            && action == Action::Idle,
{
}

/// From any non-Normal mode, Escape returns to Normal, clearing the
/// command buffer when leaving Command mode and touching nothing else.
pub proof fn lemma_escape_returns_to_normal(pre: App, post: App, key: KeyInput, action: Action)
    requires
        pre.mode != Mode::Normal,
        key.code == KeyCode::Esc,
        dispatch_post(pre, post, key, action),
    ensures
        post.mode == Mode::Normal,
        pre.mode == Mode::Command ==> post.command_buffer@ == Seq::<char>::empty(),
        pre.mode != Mode::Command ==> post.command_buffer == pre.command_buffer,
        post.file_manager == pre.file_manager,
        post.current_path == pre.current_path,
        post.selected_index == pre.selected_index,
        post.preview_content == pre.preview_content,
        post.error_message == pre.error_message,
        action == Action::Idle,
{
}

/// Moving the selection forward then back returns every non-empty
/// snapshot to the original index: the two wraps are inverse under the
/// modulus.
pub proof fn lemma_move_round_trip(pre: App)
    requires
        pre.wf(),
        pre.entries_len() > 0,
    ensures
        pre.spec_move(1).spec_move(-1) == pre,
{
    vstd::std_specs::vec::axiom_spec_len(&pre.file_manager.entries);
    let l = pre.entries_len() as int;
    let c = pre.selected_index as int;
    lemma_mod_division_less_than_divisor(c + 1, l);
    let mid = (c + 1) % l;
    if c + 1 < l {
        lemma_small_mod((c + 1) as nat, pre.entries_len());
        assert(mid == c + 1);
        lemma_small_mod(c as nat, pre.entries_len());
        assert((mid - 1) % l == c);
    } else {
        assert(c + 1 == l);
        lemma_mod_sub_multiples_vanish(c + 1, l);
        lemma_small_mod(0nat, pre.entries_len());
        assert(mid == 0);
        lemma_mod_sub_multiples_vanish(mid - 1 + l, l);
        lemma_small_mod((l - 1) as nat, pre.entries_len());
        assert((mid - 1) % l == l - 1);
        assert((mid - 1) % l == c);
    }
}

/// On an empty snapshot every selection move is a no-op: the state is
/// returned unchanged, whatever the delta.
pub proof fn lemma_move_empty_noop(pre: App, delta: int)
    requires
        pre.entries_len() == 0,
    ensures
        pre.spec_move(delta) == pre,
{
}

} // verus!
