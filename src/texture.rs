use vstd::prelude::*;

verus! {

/// Texture id that the GUI library uses for its font atlas.
pub const FONT_TEXTURE_ID: usize = usize::MAX;

/// One texture known to the registry: the engine's handle for it and, once
/// the engine has uploaded it, the binding that draw calls use.
#[derive(Clone, Copy, Debug, PartialEq, Eq, Structural)]
pub struct TextureEntry {
    pub handle: u32,
    pub binding: Option<u32>,
}

/// The engine reports that the texture with `handle` is resident on the GPU
/// under `binding`.
#[derive(Clone, Copy, Debug, PartialEq, Eq, Structural)]
pub struct Upload {
    pub handle: u32,
    pub binding: u32,
}

/// Maps the texture ids found in GUI draw commands to engine bindings.
///
/// Ids are minted in order of registration: the n-th distinct handle gets id
/// n. The font atlas sits apart under `FONT_TEXTURE_ID`.
pub struct TextureRegistry {
    entries: Vec<TextureEntry>,
    font: TextureEntry,
}

/// Binding of the first upload in `ready` that names `handle`.
pub open spec fn first_upload(ready: Seq<Upload>, handle: u32) -> Option<u32>
    decreases ready.len(),
{
    if ready.len() == 0 {
        None
    } else if ready[0].handle == handle {
        Some(ready[0].binding)
    } else {
        first_upload(ready.drop_first(), handle)
    }
}

/// An entry after one maintenance pass: a pending texture becomes resolvable
/// once its upload is reported; a resolved one keeps its binding.
pub open spec fn promoted(e: TextureEntry, ready: Seq<Upload>) -> TextureEntry {
    if e.binding is None {
        TextureEntry { handle: e.handle, binding: first_upload(ready, e.handle) }
    } else {
        e
    }
}

pub open spec fn handles_unique(entries: Seq<TextureEntry>) -> bool {
    forall|i: int, j: int|
        0 <= i < j < entries.len() ==> #[trigger] entries[i].handle != #[trigger] entries[j].handle
}

impl TextureRegistry {
    /// The registered textures; the id of each is its position.
    pub closed spec fn entries(&self) -> Seq<TextureEntry> {
        self.entries@
    }

    pub closed spec fn font(&self) -> TextureEntry {
        self.font
    }

    pub open spec fn wf(&self) -> bool {
        &&& handles_unique(self.entries())
        &&& self.entries().len() < usize::MAX
    }

    /// The id was handed out by `register`, or is the font atlas.
    pub open spec fn knows(&self, id: usize) -> bool {
        id == FONT_TEXTURE_ID || id < self.entries().len()
    }

    /// What a known id resolves to: `None` while its upload is pending.
    pub open spec fn binding_of(&self, id: usize) -> Option<u32> {
        if id == FONT_TEXTURE_ID {
            self.font().binding
        } else {
            self.entries()[id as int].binding
        }
    }

    /// A registry holding only the font atlas, whose upload is pending.
    pub fn new(font_handle: u32) -> (r: TextureRegistry)
        ensures
            r.wf(),
            r.entries() == Seq::<TextureEntry>::empty(),
            r.font() == (TextureEntry { handle: font_handle, binding: None }),
    {
        TextureRegistry { entries: Vec::new(), font: TextureEntry { handle: font_handle, binding: None } }
    }

    /// Number of registered textures, the font atlas not counted.
    pub fn len(&self) -> (r: usize)
        ensures
            r == self.entries().len(),
    {
        self.entries.len()
    }

    pub fn is_known(&self, id: usize) -> (r: bool)
        ensures
            r == self.knows(id),
    {
        id == FONT_TEXTURE_ID || id < self.entries.len()
    }

    /// Id of the texture with `handle`: the id it already has, or a new one,
    /// pending until `maintain` hears of its upload.
    pub fn register(&mut self, handle: u32) -> (id: usize)
        requires
            old(self).wf(),
            old(self).entries().len() + 1 < usize::MAX,
        ensures
            final(self).wf(),
            final(self).font() == old(self).font(),
            id != FONT_TEXTURE_ID,
            (exists|k: int| 0 <= k < old(self).entries().len() && old(self).entries()[k].handle == handle)
                ==> {
                &&& id < old(self).entries().len()
                &&& old(self).entries()[id as int].handle == handle
                &&& final(self).entries() == old(self).entries()
            },
            (forall|k: int| 0 <= k < old(self).entries().len() ==> old(self).entries()[k].handle != handle)
                ==> {
                &&& id == old(self).entries().len()
                &&& final(self).entries() == old(self).entries().push(
                    TextureEntry { handle, binding: None },
                )
            },
    {
        let mut i: usize = 0;
        while i < self.entries.len()
            invariant
                self.wf(),
                *self == *old(self),
                0 <= i <= self.entries@.len(),
                forall|k: int| 0 <= k < i ==> self.entries@[k].handle != handle,
            decreases self.entries@.len() - i,
        {
            if self.entries[i].handle == handle {
                return i;
            }
            i = i + 1;
        }
        let id = self.entries.len();
        self.entries.push(TextureEntry { handle, binding: None });
        proof {
            let s = self.entries@;
            assert forall|a: int, b: int| 0 <= a < b < s.len() implies #[trigger] s[a].handle
                != #[trigger] s[b].handle by {
                if b == id as int {
                    assert(old(self).entries@[a].handle != handle);
                } else {
                    assert(old(self).entries@[a].handle != old(self).entries@[b].handle);
                }
            }
        }
        id
    }

    /// The binding of a known texture, or `None` while its upload is pending.
    pub fn resolve(&self, id: usize) -> (r: Option<u32>)
        requires
            self.knows(id),
        ensures
            r == self.binding_of(id),
    {
        if id == FONT_TEXTURE_ID {
            self.font.binding
        } else {
            self.entries[id].binding
        }
    }

    /// Promotes each pending texture whose upload `ready` reports.
    pub fn maintain(&mut self, ready: &Vec<Upload>)
        requires
            old(self).wf(),
        ensures
            final(self).wf(),
            final(self).font() == promoted(old(self).font(), ready@),
            final(self).entries().len() == old(self).entries().len(),
            forall|k: int|
                0 <= k < old(self).entries().len() ==> #[trigger] final(self).entries()[k] == promoted(
                    old(self).entries()[k],
                    ready@,
                ),
    {
        self.font = promote(self.font, ready);
        let mut i: usize = 0;
        while i < self.entries.len()
            invariant
                self.wf(),
                self.font == promoted(old(self).font, ready@),
                self.entries@.len() == old(self).entries@.len(),
                0 <= i <= self.entries@.len(),
                forall|k: int| 0 <= k < i ==> #[trigger] self.entries@[k] == promoted(old(self).entries@[k], ready@),
                forall|k: int| i <= k < self.entries@.len() ==> #[trigger] self.entries@[k] == old(self).entries@[k],
            decreases self.entries@.len() - i,
        {
            let e = promote(self.entries[i], ready);
            self.entries.set(i, e);
            i = i + 1;
        }
    }
}

/// Binding reported for `handle` by the first matching upload, if any.
fn find_upload(ready: &Vec<Upload>, handle: u32) -> (r: Option<u32>)
    ensures
        r == first_upload(ready@, handle),
{
    let mut i: usize = 0;
    assert(ready@.skip(0) =~= ready@);
    while i < ready.len()
        invariant
            0 <= i <= ready@.len(),
            first_upload(ready@, handle) == first_upload(ready@.skip(i as int), handle),
        decreases ready@.len() - i,
    {
        assert(ready@.skip(i as int).drop_first() =~= ready@.skip(i as int + 1));
        if ready[i].handle == handle {
            return Some(ready[i].binding);
        }
        i = i + 1;
    }
    None
}

fn promote(e: TextureEntry, ready: &Vec<Upload>) -> (r: TextureEntry)
    ensures
        r == promoted(e, ready@),
{
    if e.binding.is_none() {
        TextureEntry { handle: e.handle, binding: find_upload(ready, e.handle) }
    } else {
        e
    }
}

} // verus!
