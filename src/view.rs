use vstd::prelude::*;

verus! {

/// Who owns the bytes behind a view.
#[derive(Clone, Copy, Debug, PartialEq, Eq, Structural)]
pub enum ViewKind {
    /// No buffer was materialised.
    Empty,
    /// A module-owned copy, freed on release.
    Owned,
    /// Host memory, read-only and bounded to the current call.
    Borrowed,
}

/// The mathematical picture of a view.
pub struct ViewModel {
    pub kind: ViewKind,
    pub bytes: Seq<u8>,
    pub released: bool,
}

/// Why a write into a view was refused.
#[derive(Clone, Copy, Debug, PartialEq, Eq, Structural)]
pub enum ViewError {
    ReadOnly,
    Released,
    OutOfBounds,
}

pub open spec fn writable(m: ViewModel) -> bool {
    m.kind == ViewKind::Owned && !m.released
}

/// The view after a release, and the number of module-owned bytes freed.
pub open spec fn release_spec(m: ViewModel) -> (ViewModel, nat) {
    if m.released {
        (m, 0)
    } else if m.kind == ViewKind::Owned {
        (ViewModel { kind: m.kind, bytes: Seq::empty(), released: true }, m.bytes.len())
    } else {
        (ViewModel { kind: m.kind, bytes: m.bytes, released: true }, 0)
    }
}

/// A fresh module-owned copy of `src`.
pub fn copy_bytes(src: &[u8]) -> (r: Vec<u8>)
    ensures
        r@ == src@,
{
    let mut out: Vec<u8> = Vec::with_capacity(src.len());
    let mut i: usize = 0;
    while i < src.len()
        invariant
            i <= src@.len(),
            out@ == src@.subrange(0, i as int),
        decreases src@.len() - i,
    {
        out.push(src[i]);
        i = i + 1;
    }
    assert(out@ =~= src@);
    out
}

enum Backing<'a> {
    Empty,
    Owned(Vec<u8>),
    Borrowed(&'a [u8]),
}

/// A bounded view over one materialised buffer.
///
/// A borrowed view carries the lifetime of the host memory it points into,
/// so it cannot outlive the call that produced it.
pub struct BufferView<'a> {
    backing: Backing<'a>,
    released: bool,
}

impl<'a> View for BufferView<'a> {
    type V = ViewModel;

    closed spec fn view(&self) -> ViewModel {
        match self.backing {
            Backing::Empty => ViewModel { kind: ViewKind::Empty, bytes: Seq::empty(), released: self.released },
            Backing::Owned(v) => ViewModel { kind: ViewKind::Owned, bytes: v@, released: self.released },
            Backing::Borrowed(s) => ViewModel { kind: ViewKind::Borrowed, bytes: s@, released: self.released },
        }
    }
}

impl<'a> BufferView<'a> {
    pub fn empty() -> (r: BufferView<'a>)
        ensures
            r@ == (ViewModel { kind: ViewKind::Empty, bytes: Seq::empty(), released: false }),
    {
        BufferView { backing: Backing::Empty, released: false }
    }

    pub fn owned(bytes: Vec<u8>) -> (r: BufferView<'a>)
        ensures
            r@ == (ViewModel { kind: ViewKind::Owned, bytes: bytes@, released: false }),
    {
        BufferView { backing: Backing::Owned(bytes), released: false }
    }

    pub fn borrowed(bytes: &'a [u8]) -> (r: BufferView<'a>)
        ensures
            r@ == (ViewModel { kind: ViewKind::Borrowed, bytes: bytes@, released: false }),
    {
        BufferView { backing: Backing::Borrowed(bytes), released: false }
    }
    pub fn kind(&self) -> (r: ViewKind)
        ensures
            r == self@.kind,
    {
        match &self.backing {
            Backing::Empty => ViewKind::Empty,
            Backing::Owned(_) => ViewKind::Owned,
            Backing::Borrowed(_) => ViewKind::Borrowed,
        }
    }

    pub fn len(&self) -> (r: usize)
        ensures
            r == self@.bytes.len(),
    {
        match &self.backing {
            Backing::Empty => 0,
            Backing::Owned(v) => v.len(),
            Backing::Borrowed(s) => s.len(),
        }
    }

    pub fn is_released(&self) -> (r: bool)
        ensures
            r == self@.released,
    {
        self.released
    }

    /// Only a live, module-owned copy may be written through.
    pub fn is_writable(&self) -> (r: bool)
        ensures
            r == writable(self@),
    {
        !self.released && match &self.backing {
            Backing::Owned(_) => true,
            _ => false,
        }
    }

    /// The byte at `index`, while the view is live.
    pub fn read_at(&self, index: usize) -> (r: Option<u8>)
        ensures
            r == (if !self@.released && index < self@.bytes.len() {
                Some(self@.bytes[index as int])
            } else {
                None
            }),
    {
        if self.released {
            return None;
        }
        match &self.backing {
            Backing::Empty => None,
            Backing::Owned(v) => if index < v.len() { Some(v[index]) } else { None },
            Backing::Borrowed(s) => if index < s.len() { Some(s[index]) } else { None },
        }
    }

    /// A copy of the bytes, while the view is live; empty once released.
    pub fn contents(&self) -> (r: Vec<u8>)
        ensures
            r@ == (if self@.released { Seq::<u8>::empty() } else { self@.bytes }),
    {
        if self.released {
            return Vec::new();
        }
        match &self.backing {
            Backing::Empty => Vec::new(),
            Backing::Owned(v) => v.clone(),
            Backing::Borrowed(s) => copy_bytes(s),
        }
    }

    /// Writes one byte. A borrowed or empty view is never written through.
    pub fn write_at(&mut self, index: usize, byte: u8) -> (r: Result<(), ViewError>)
        ensures
            r == (if old(self)@.released {
                Err(ViewError::Released)
            } else if old(self)@.kind != ViewKind::Owned {
                Err(ViewError::ReadOnly)
            } else if index >= old(self)@.bytes.len() {
                Err(ViewError::OutOfBounds)
            } else {
                Ok(())
            }),
            r is Ok ==> final(self)@ == (ViewModel { bytes: old(self)@.bytes.update(index as int, byte), ..old(self)@ }),
            r is Err ==> final(self)@ == old(self)@,
    {
        if self.released {
            return Err(ViewError::Released);
        }
        match &mut self.backing {
            Backing::Owned(v) => {
                if index < v.len() {
                    v.set(index, byte);
                    Ok(())
                } else {
                    Err(ViewError::OutOfBounds)
                }
            },
            _ => Err(ViewError::ReadOnly),
        }
    }

    /// Ends the view's use. A module-owned copy is freed and its length
    /// returned; a borrowed or empty view frees nothing. Releasing twice
    /// changes nothing.
    pub fn release(&mut self) -> (freed: usize)
        ensures
            final(self)@ == release_spec(old(self)@).0,
            freed as nat == release_spec(old(self)@).1,
    {
        if self.released {
            return 0;
        }
        self.released = true;
        match &mut self.backing {
            Backing::Owned(v) => {
                let n = v.len();
                *v = Vec::new();
                n
            },
            _ => 0,
        }
    }
}


/// Releasing a view that was already released is a no-op: nothing changes
/// and nothing more is freed.
pub proof fn release_is_idempotent(m: ViewModel)
    ensures
        release_spec(release_spec(m).0) == (release_spec(m).0, 0nat),
        m.released ==> release_spec(m) == (m, 0nat),
{
}

} // verus!
