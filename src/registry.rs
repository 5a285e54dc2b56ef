use vstd::prelude::*;

verus! {

/// What a [`WindowRegistry`] holds: the managed windows in the order they
/// were added, and the focused window.
pub struct RegistryView {
    pub windows: Seq<u32>,
    pub focused: Option<u32>,
}

/// No handle occurs twice in `s`.
pub open spec fn no_duplicates(s: Seq<u32>) -> bool {
    forall|i: int, j: int| 0 <= i < j < s.len() ==> s[i] != s[j]
}

/// The last element of `s`, if any.
pub open spec fn last_of(s: Seq<u32>) -> Option<u32> {
    if s.len() == 0 {
        None
    } else {
        Some(s.last())
    }
}

/// `s` without its first occurrence of `h`.
pub open spec fn remove_first(s: Seq<u32>, h: u32) -> Seq<u32>
    decreases s.len(),
{
    if s.len() == 0 {
        s
    } else if s[0] == h {
        s.drop_first()
    } else {
        seq![s[0]] + remove_first(s.drop_first(), h)
    }
}

/// One change to a registry.
pub enum RegistryOp {
    Add(u32),
    Remove(u32),
}

impl RegistryView {
    /// The registry with no windows and no focus.
    pub open spec fn empty() -> RegistryView {
        RegistryView { windows: Seq::empty(), focused: None }
    }

    /// Focus is absent exactly when there are no windows, and otherwise
    /// names one of them; no window occurs twice.
    pub open spec fn consistent(self) -> bool {
        &&& no_duplicates(self.windows)
        &&& (self.focused is None <==> self.windows.len() == 0)
        &&& (self.focused matches Some(f) ==> self.windows.contains(f))
    }

    /// `h` appended, and focused.
    pub open spec fn added(self, h: u32) -> RegistryView {
        RegistryView { windows: self.windows.push(h), focused: Some(h) }
    }

    /// The first occurrence of `h` removed; where `h` was focused, focus
    /// passes to the last remaining window.
    pub open spec fn removed(self, h: u32) -> RegistryView {
        let rest = remove_first(self.windows, h);
        RegistryView {
            windows: rest,
            focused: if self.focused == Some(h) {
                last_of(rest)
            } else {
                self.focused
            },
        }
    }

    /// `h` focused, the windows unchanged.
    pub open spec fn focused_on(self, h: u32) -> RegistryView {
        RegistryView { windows: self.windows, focused: Some(h) }
    }

    /// Whether `op` may be applied: a window is only added when absent.
    pub open spec fn admits(self, op: RegistryOp) -> bool {
        match op {
            RegistryOp::Add(h) => !self.windows.contains(h),
            RegistryOp::Remove(_) => true,
        }
    }

    pub open spec fn apply(self, op: RegistryOp) -> RegistryView {
        match op {
            RegistryOp::Add(h) => self.added(h),
            RegistryOp::Remove(h) => self.removed(h),
        }
    }

    /// Whether each operation of `ops` may be applied in turn.
    pub open spec fn admits_all(self, ops: Seq<RegistryOp>) -> bool
        decreases ops.len(),
    {
        ops.len() == 0 || (self.admits(ops[0]) && self.apply(ops[0]).admits_all(
            ops.drop_first(),
        ))
    }

    /// The registry after each operation of `ops` in turn.
    pub open spec fn apply_all(self, ops: Seq<RegistryOp>) -> RegistryView
        decreases ops.len(),
    {
        if ops.len() == 0 {
            self
        } else {
            self.apply(ops[0]).apply_all(ops.drop_first())
        }
    }
}

proof fn lemma_remove_first_at(s: Seq<u32>, h: u32, i: int)
    requires
        0 <= i < s.len(),
        s[i] == h,
        forall|j: int| 0 <= j < i ==> s[j] != h,
    ensures
        remove_first(s, h) == s.remove(i),
    decreases s.len(),
{
    if i > 0 {
        lemma_remove_first_at(s.drop_first(), h, i - 1);
        assert(remove_first(s, h) =~= s.remove(i));
    } else {
        assert(remove_first(s, h) =~= s.remove(i));
    }
}

proof fn lemma_remove_first_absent(s: Seq<u32>, h: u32)
    requires
        !s.contains(h),
    ensures
        remove_first(s, h) == s,
    decreases s.len(),
{
    if s.len() > 0 {
        assert(s.drop_first().len() < s.len());
        if s.drop_first().contains(h) {
            let k = choose|k: int| 0 <= k < s.drop_first().len() && s.drop_first()[k] == h;
            assert(s[k + 1] == h);
        }
        lemma_remove_first_absent(s.drop_first(), h);
        assert(remove_first(s, h) =~= s);
    }
}

/// Removing the first occurrence keeps a sequence free of duplicates, keeps
/// every other element, and adds none.
proof fn lemma_remove_first_keeps(s: Seq<u32>, h: u32)
    requires
        no_duplicates(s),
    ensures
        no_duplicates(remove_first(s, h)),
        !remove_first(s, h).contains(h),
        forall|x: u32| x != h ==> (remove_first(s, h).contains(x) <==> s.contains(x)),
        remove_first(s, h).len() == 0 <==> (s.len() == 0 || s == seq![h]),
{
    if s.contains(h) {
        let i = choose|i: int| 0 <= i < s.len() && s[i] == h;
        lemma_remove_first_at(s, h, i);
        let r = s.remove(i);
        assert forall|x: u32| x != h implies (r.contains(x) <==> s.contains(x)) by {
            if s.contains(x) {
                let k = choose|k: int| 0 <= k < s.len() && s[k] == x;
                if k < i {
                    assert(r[k] == x);
                } else {
                    assert(r[k - 1] == x);
                }
            }
        }
        if r.contains(h) {
            let k = choose|k: int| 0 <= k < r.len() && r[k] == h;
            if k < i {
                assert(s[k] == h);
            } else {
                assert(s[k + 1] == h);
            }
        }
        if r.len() == 0 {
            assert(s =~= seq![h]);
        }
    } else {
        lemma_remove_first_absent(s, h);
        if s == seq![h] {
            assert(s[0] == h);
        }
    }
}

/// Adding a window that is absent, and removing any window, keep a
/// consistent registry consistent.
pub proof fn apply_keeps_consistent(v: RegistryView, op: RegistryOp)
    requires
        v.consistent(),
        v.admits(op),
    ensures
        v.apply(op).consistent(),
{
    match op {
        RegistryOp::Add(h) => {
            assert(v.added(h).windows.last() == h);
            assert forall|x: u32| v.windows.contains(x) implies v.added(h).windows.contains(x) by {
                let k = choose|k: int| 0 <= k < v.windows.len() && v.windows[k] == x;
                assert(v.added(h).windows[k] == x);
            }
            assert(v.added(h).windows[v.windows.len() as int] == h);
        },
        RegistryOp::Remove(h) => {
            lemma_remove_first_keeps(v.windows, h);
            let r = v.removed(h);
            if r.windows.len() > 0 {
                assert(r.windows.contains(r.windows.last()));
            }
        },
    }
}

/// After any sequence of additions of absent windows and removals, starting
/// from a consistent registry, no window occurs twice and focus is absent
/// exactly when the registry is empty, and otherwise names a registered
/// window.
pub proof fn registry_stays_consistent(v: RegistryView, ops: Seq<RegistryOp>)
    requires
        v.consistent(),
        v.admits_all(ops),
    ensures
        v.apply_all(ops).consistent(),
    decreases ops.len(),
{
    if ops.len() > 0 {
        apply_keeps_consistent(v, ops[0]);
        registry_stays_consistent(v.apply(ops[0]), ops.drop_first());
    }
}

/// The managed windows, in the order they were added, and the focused window.
pub struct WindowRegistry {
    windows: Vec<u32>,
    focused: Option<u32>,
}

impl View for WindowRegistry {
    type V = RegistryView;

    closed spec fn view(&self) -> RegistryView {
        RegistryView { windows: self.windows@, focused: self.focused }
    }
}

impl WindowRegistry {
    /// No window occurs twice.
    pub open spec fn wf(&self) -> bool {
        no_duplicates(self@.windows)
    }

    pub fn new() -> (r: WindowRegistry)
        ensures
            r@ == RegistryView::empty(),
            r.wf(),
    {
        WindowRegistry { windows: Vec::new(), focused: None }
    }

    pub fn contains(&self, h: u32) -> (r: bool)
        ensures
            r == self@.windows.contains(h),
    {
        let mut i: usize = 0;
        while i < self.windows.len()
            invariant
                i <= self.windows@.len(),
                forall|j: int| 0 <= j < i ==> self.windows@[j] != h,
            decreases self.windows@.len() - i,
        {
            if self.windows[i] == h {
                proof {
                    assert(self@.windows[i as int] == h);
                }
                return true;
            }
            i += 1;
        }
        false
    }

    /// Appends `h` and focuses it.
    pub fn add(&mut self, h: u32)
        requires
            old(self).wf(),
            !old(self)@.windows.contains(h),
        ensures
            final(self)@ == old(self)@.added(h),
            final(self).wf(),
    {
        self.windows.push(h);
        self.focused = Some(h);
        proof {
            assert forall|i: int, j: int|
                0 <= i < j < self@.windows.len() implies self@.windows[i] != self@.windows[j] by {
                if j == self@.windows.len() - 1 {
                    assert(old(self)@.windows.contains(self@.windows[i]));
                }
            }
        }
    }

    /// Removes the first occurrence of `h`; where `h` was focused, the last
    /// remaining window becomes focused, or none when no window is left.
    pub fn remove(&mut self, h: u32)
        requires
            old(self).wf(),
        ensures
            final(self)@ == old(self)@.removed(h),
            final(self).wf(),
            old(self)@.focused == Some(h) ==> final(self)@.focused == last_of(final(self)@.windows),
            old(self)@.focused != Some(h) ==> final(self)@.focused == old(self)@.focused,
    {
        let ghost s = self.windows@;
        let mut i: usize = 0;
        while i < self.windows.len() && self.windows[i] != h
            invariant
                self.windows@ == s,
                i <= s.len(),
                forall|j: int| 0 <= j < i ==> s[j] != h,
            decreases s.len() - i,
        {
            i += 1;
        }
        proof {
            lemma_remove_first_keeps(s, h);
        }
        if i < self.windows.len() {
            proof {
                lemma_remove_first_at(s, h, i as int);
            }
            self.windows.remove(i);
        } else {
            proof {
                assert(!s.contains(h));
                lemma_remove_first_absent(s, h);
            }
        }
        let was_focused = match self.focused {
            Some(f) => f == h,
            None => false,
        };
        if was_focused {
            self.focused = match self.windows.last() {
                Some(w) => Some(*w),
                None => None,
            };
        }
    }

    /// Focuses `h`, registered or not.
    pub fn focus(&mut self, h: u32)
        ensures
            final(self)@ == old(self)@.focused_on(h),
    {
        self.focused = Some(h);
    }

    pub fn focused(&self) -> (r: Option<u32>)
        ensures
            r == self@.focused,
    {
        self.focused
    }

    /// The managed windows, in the order they were added.
    pub fn all(&self) -> (r: &Vec<u32>)
        ensures
            r@ == self@.windows,
    {
        &self.windows
    }
}

} // verus!
