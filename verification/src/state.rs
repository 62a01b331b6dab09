//! The frame state store: the authoritative, latest-known window and input
//! state between frame boundaries, together with the mathematical model of
//! every mutation an incoming windowing event may cause.
//!
//! The store is owned exclusively by the frame driver; every operation is a
//! plain in-memory mutation with no other side effect.

use vstd::prelude::*;

use crate::util_structs::AFSize2D;

verus! {

/// Errors of the frame loop core. Every one of them is fatal to the loop:
/// the driver never resynchronises after a violation, and surface
/// acquisition is never retried automatically.
#[derive(Copy, Clone, PartialEq, Eq, Structural, Debug)]
pub enum AFError {
    /// The platform delivered an event stream that contradicts the store's
    /// assumptions: a key release with no matching press.
    InvariantViolation,
    /// A presentable surface or device could not be acquired or rebuilt.
    ResourceAcquisitionFailure,
}

/// The mathematical model of the frame state store: the window snapshot as
/// plain values, the hover and drop path lists as sequences of character
/// sequences, and the key sets as duplicate-free key sequences.
#[verifier::ext_equal]
pub struct AFFrameStateView {
    pub width: u32,
    pub height: u32,
    pub focused: bool,
    pub close_requested: bool,
    pub resized: bool,
    pub hovering: Seq<Seq<char>>,
    pub dropped: Seq<Seq<char>>,
    pub pressed: Seq<u32>,
    pub clicked: Seq<u32>,
}

/// Appends a key to a key set unless it is already held: the key sets are
/// sets, so a repeated key-down leaves them unchanged.
pub open spec fn push_if_absent(s: Seq<u32>, key: u32) -> Seq<u32> {
    if s.contains(key) {
        s
    } else {
        s.push(key)
    }
}

impl AFFrameStateView {
    /// Well-formedness: the key sets never hold a key twice.
    pub open spec fn wf(self) -> bool {
        self.pressed.no_duplicates() && self.clicked.no_duplicates()
    }

    /// The state a fresh loop starts from: the window's starting size,
    /// no focus, nothing requested, nothing held.
    pub open spec fn initial(width: u32, height: u32) -> AFFrameStateView {
        AFFrameStateView {
            width,
            height,
            focused: false,
            close_requested: false,
            resized: false,
            hovering: Seq::empty(),
            dropped: Seq::empty(),
            pressed: Seq::empty(),
            clicked: Seq::empty(),
        }
    }

    /// A resize overwrites the stored size and marks the frame as resized.
    pub open spec fn resize_spec(self, width: u32, height: u32) -> AFFrameStateView {
        AFFrameStateView { width, height, resized: true, ..self }
    }

    /// A close request latches; it is never cleared, so it is idempotent.
    pub open spec fn close_request_spec(self) -> AFFrameStateView {
        AFFrameStateView { close_requested: true, ..self }
    }

    /// A focus change overwrites the focus flag.
    pub open spec fn focus_spec(self, focused: bool) -> AFFrameStateView {
        AFFrameStateView { focused, ..self }
    }

    /// A hovering file is appended to the hover list.
    pub open spec fn file_hover_spec(self, path: Seq<char>) -> AFFrameStateView {
        AFFrameStateView { hovering: self.hovering.push(path), ..self }
    }

    /// A hover cancel clears the hover list.
    pub open spec fn hover_cancel_spec(self) -> AFFrameStateView {
        AFFrameStateView { hovering: Seq::empty(), ..self }
    }

    /// A drop ends hovering and queues the dropped path for the next frame.
    pub open spec fn file_drop_spec(self, path: Seq<char>) -> AFFrameStateView {
        AFFrameStateView {
            hovering: Seq::empty(),
            dropped: self.dropped.push(path),
            ..self
        }
    }

    /// A key press adds the key to the held set and to the clicked set of
    /// the current frame; both de-duplicate.
    pub open spec fn key_down_spec(self, key: u32) -> AFFrameStateView {
        AFFrameStateView {
            pressed: push_if_absent(self.pressed, key),
            clicked: push_if_absent(self.clicked, key),
            ..self
        }
    }

    /// A key release is only admissible for a key that is currently held.
    pub open spec fn key_up_allowed(self, key: u32) -> bool {
        self.pressed.contains(key)
    }

    /// A key release removes the key from the held set; the clicked set
    /// keeps the key until the end of the frame.
    pub open spec fn key_up_spec(self, key: u32) -> AFFrameStateView {
        AFFrameStateView { pressed: self.pressed.remove_value(key), ..self }
    }

    /// The end-of-tick reset: one-shot state (drops, clicks, the resized
    /// flag) is cleared; size, focus, held keys and hover list persist.
    pub open spec fn reset_spec(self) -> AFFrameStateView {
        AFFrameStateView {
            dropped: Seq::empty(),
            clicked: Seq::empty(),
            resized: false,
            ..self
        }
    }
}

/// Appending an absent key keeps a key set duplicate-free, puts the key in,
/// and leaves every other key's membership unchanged.
pub proof fn lemma_push_if_absent(s: Seq<u32>, key: u32)
    requires
        s.no_duplicates(),
    ensures
        push_if_absent(s, key).no_duplicates(),
        push_if_absent(s, key).contains(key),
        forall|x: u32| x != key ==> (push_if_absent(s, key).contains(x) <==> s.contains(x)),
        s.contains(key) ==> push_if_absent(s, key) == s,
{
    if !s.contains(key) {
        let p = s.push(key);
        assert(p[s.len() as int] == key);
        assert forall|i: int, j: int|
            0 <= i < p.len() && 0 <= j < p.len() && i != j implies p[i] != p[j] by {
            if i < s.len() && j < s.len() {
                assert(s[i] == p[i] && s[j] == p[j]);
            } else if i == s.len() {
                assert(p[j] == s[j] && p[i] == key);
                assert(!s.contains(key));
            } else {
                assert(j == s.len());
                assert(p[i] == s[i] && p[j] == key);
                assert(!s.contains(key));
            }
        }
        assert forall|x: u32| x != key && p.contains(x) implies s.contains(x) by {
            let i = choose|i: int| 0 <= i < p.len() && p[i] == x;
            assert(i < s.len() && s[i] == x);
        }
        assert forall|x: u32| x != key && s.contains(x) implies p.contains(x) by {
            let i = choose|i: int| 0 <= i < s.len() && s[i] == x;
            assert(p[i] == x);
        }
    }
}

/// Removing a key's first occurrence from a duplicate-free key set removes
/// the key entirely, keeps the set duplicate-free, and leaves every other
/// key's membership unchanged.
pub proof fn lemma_remove_value(s: Seq<u32>, key: u32)
    requires
        s.no_duplicates(),
    ensures
        s.remove_value(key).no_duplicates(),
        !s.remove_value(key).contains(key),
        forall|x: u32| x != key ==> (s.remove_value(key).contains(x) <==> s.contains(x)),
        s.contains(key) ==> s.remove_value(key).len() == s.len() - 1,
        !s.contains(key) ==> s.remove_value(key) == s,
{
    s.index_of_first_ensures(key);
    match s.index_of_first(key) {
        Some(i) => {
            s.remove_ensures(i);
            let r = s.remove(i);
            assert forall|a: int, b: int|
                0 <= a < r.len() && 0 <= b < r.len() && a != b implies r[a] != r[b] by {
                let a0: int = if a < i { a } else { a + 1 };
                let b0: int = if b < i { b } else { b + 1 };
                assert(r[a] == s[a0] && r[b] == s[b0]);
            }
            assert forall|a: int| 0 <= a < r.len() implies r[a] != key by {
                let a0: int = if a < i { a } else { a + 1 };
                assert(r[a] == s[a0]);
                assert(s[i] == key);
            }
            assert forall|x: u32| x != key && r.contains(x) implies s.contains(x) by {
                let a = choose|a: int| 0 <= a < r.len() && r[a] == x;
                let a0: int = if a < i { a } else { a + 1 };
                assert(s[a0] == x);
            }
            assert forall|x: u32| x != key && s.contains(x) implies r.contains(x) by {
                let a0 = choose|a0: int| 0 <= a0 < s.len() && s[a0] == x;
                if a0 < i {
                    assert(r[a0] == x);
                } else {
                    assert(a0 != i);
                    assert(r[a0 - 1] == s[a0]);
                }
            }
        },
        None => {},
    }
}

/// The frame state store. Fields mirror the model one for one; the path
/// lists hold owned strings and the key sets hold plain key identifiers.
pub struct AFFrameState {
    pub size: AFSize2D,
    pub focused: bool,
    pub close_requested: bool,
    pub resized_since_last_frame: bool,
    pub hover_files: Vec<String>,
    pub dropped_files: Vec<String>,
    pub pressed_keys: Vec<u32>,
    pub clicked_keys: Vec<u32>,
}

impl View for AFFrameState {
    type V = AFFrameStateView;

    open spec fn view(&self) -> AFFrameStateView {
        AFFrameStateView {
            width: self.size.width,
            height: self.size.height,
            focused: self.focused,
            close_requested: self.close_requested,
            resized: self.resized_since_last_frame,
            hovering: self.hover_files.deep_view(),
            dropped: self.dropped_files.deep_view(),
            pressed: self.pressed_keys@,
            clicked: self.clicked_keys@,
        }
    }
}

/// Whether a key set currently holds `key`.
fn contains_key(keys: &Vec<u32>, key: u32) -> (r: bool)
    ensures
        r == keys@.contains(key),
{
    let mut i: usize = 0;
    while i < keys.len()
        invariant
            0 <= i <= keys@.len(),
            forall|j: int| 0 <= j < i ==> keys@[j] != key,
        decreases keys@.len() - i,
    {
        if keys[i] == key {
            return true;
        }
        i += 1;
    }
    false
}

impl AFFrameState {
    /// A fresh store for a loop that starts with the given window size.
    pub fn new(width: u32, height: u32) -> (r: AFFrameState)
        ensures
            r@ == AFFrameStateView::initial(width, height),
            r@.wf(),
    {
        let r = AFFrameState {
            size: AFSize2D { width, height },
            focused: false,
            close_requested: false,
            resized_since_last_frame: false,
            hover_files: Vec::new(),
            dropped_files: Vec::new(),
            pressed_keys: Vec::new(),
            clicked_keys: Vec::new(),
        };
        proof {
            assert(r@ =~= AFFrameStateView::initial(width, height));
        }
        r
    }

    /// Overwrites the stored size and marks the frame as resized.
    pub fn record_resize(&mut self, width: u32, height: u32)
        ensures
            final(self)@ == old(self)@.resize_spec(width, height),
            old(self)@.wf() ==> final(self)@.wf(),
    {
        self.size = AFSize2D { width, height };
        self.resized_since_last_frame = true;
    }

    /// Latches the close request; repeating it changes nothing further.
    pub fn record_close_request(&mut self)
        ensures
            final(self)@ == old(self)@.close_request_spec(),
            old(self)@.wf() ==> final(self)@.wf(),
    {
        self.close_requested = true;
    }

    /// Overwrites the focus flag.
    pub fn record_focus(&mut self, focused: bool)
        ensures
            final(self)@ == old(self)@.focus_spec(focused),
            old(self)@.wf() ==> final(self)@.wf(),
    {
        self.focused = focused;
    }

    /// Appends a hovering file's path to the hover list.
    pub fn record_file_hover(&mut self, path: String)
        ensures
            final(self)@ == old(self)@.file_hover_spec(path@),
            old(self)@.wf() ==> final(self)@.wf(),
    {
        let ghost before = self.hover_files.deep_view();
        self.hover_files.push(path);
        proof {
            assert(self.hover_files.deep_view() =~= before.push(path@));
            assert(self@ =~= old(self)@.file_hover_spec(path@));
        }
    }

    /// Clears the hover list.
    pub fn record_file_hover_cancel(&mut self)
        ensures
            final(self)@ == old(self)@.hover_cancel_spec(),
            old(self)@.wf() ==> final(self)@.wf(),
    {
        self.hover_files.clear();
        proof {
            assert(self.hover_files.deep_view() =~= Seq::<Seq<char>>::empty());
            assert(self@ =~= old(self)@.hover_cancel_spec());
        }
    }

    /// Ends hovering and queues the dropped file for the next frame.
    pub fn record_file_drop(&mut self, path: String)
        ensures
            final(self)@ == old(self)@.file_drop_spec(path@),
            old(self)@.wf() ==> final(self)@.wf(),
    {
        let ghost before = self.dropped_files.deep_view();
        self.hover_files.clear();
        self.dropped_files.push(path);
        proof {
            assert(self.hover_files.deep_view() =~= Seq::<Seq<char>>::empty());
            assert(self.dropped_files.deep_view() =~= before.push(path@));
            assert(self@ =~= old(self)@.file_drop_spec(path@));
        }
    }

    /// Adds the key to the held set and to this frame's clicked set; a key
    /// already held or already clicked is not added twice.
    pub fn record_key_down(&mut self, key: u32)
        requires
            old(self)@.wf(),
        ensures
            final(self)@ == old(self)@.key_down_spec(key),
            final(self)@.wf(),
    {
        if !contains_key(&self.pressed_keys, key) {
            self.pressed_keys.push(key);
        }
        if !contains_key(&self.clicked_keys, key) {
            self.clicked_keys.push(key);
        }
        proof {
            lemma_push_if_absent(old(self)@.pressed, key);
            lemma_push_if_absent(old(self)@.clicked, key);
            assert(self@ =~= old(self)@.key_down_spec(key));
        }
    }

    /// Removes the key from the held set. Releasing a key that is not held
    /// is an invariant violation: the store is left unchanged and the
    /// caller must treat the loop as failed.
    pub fn record_key_up(&mut self, key: u32) -> (r: Result<(), AFError>)
        requires
            old(self)@.wf(),
        ensures
            final(self)@.wf(),
            old(self)@.key_up_allowed(key) ==> r == Ok::<(), AFError>(())
                && final(self)@ == old(self)@.key_up_spec(key),
            !old(self)@.key_up_allowed(key) ==> r == Err::<(), AFError>(
                AFError::InvariantViolation,
            ) && final(self)@ == old(self)@,
    {
        let ghost s = old(self)@.pressed;
        let mut i: usize = 0;
        while i < self.pressed_keys.len()
            invariant
                *self == *old(self),
                old(self)@.wf(),
                0 <= i <= s.len(),
                forall|j: int| 0 <= j < i ==> s[j] != key,
                s == old(self)@.pressed,
                s == self.pressed_keys@,
            decreases s.len() - i,
        {
            if self.pressed_keys[i] == key {
                proof {
                    s.index_of_first_ensures(key);
                    let i0 = s.index_of_first(key).unwrap();
                    assert(s[i as int] == key);
                    assert(i0 == i as int);
                    lemma_remove_value(s, key);
                }
                self.pressed_keys.remove(i);
                proof {
                    assert(self@ =~= old(self)@.key_up_spec(key));
                }
                return Ok(());
            }
            i += 1;
        }
        proof {
            assert(!s.contains(key));
        }
        Err(AFError::InvariantViolation)
    }

    /// The end-of-tick reset: clears the dropped queue and the clicked set
    /// and lowers the resized flag; everything else persists.
    pub fn reset_frame_flags(&mut self)
        ensures
            final(self)@ == old(self)@.reset_spec(),
            old(self)@.wf() ==> final(self)@.wf(),
    {
        self.dropped_files.clear();
        self.clicked_keys.clear();
        self.resized_since_last_frame = false;
        proof {
            assert(self.dropped_files.deep_view() =~= Seq::<Seq<char>>::empty());
            assert(self@ =~= old(self)@.reset_spec());
        }
    }
}

} // verus!
