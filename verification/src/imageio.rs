//! The image file I/O layer: the error taxonomy its callers see, and the
//! registry through which decoded images are opened.
//!
//! The native codec is an external collaborator: the caller runs it, and
//! registers each decoded image's description in an `ImageStore` under its
//! file path. Opening is then a pure lookup, and everything after it —
//! descriptions, channel lists — is plain bookkeeping verified here.

use vstd::prelude::*;

verus! {

/// What can go wrong while opening, reading or writing an image file.
#[derive(Clone, Debug, PartialEq, Eq, Hash)]
pub enum Error {
    /// Opening the file failed; carries the codec's message.
    OpenError(String),
    /// Writing image data failed; carries the codec's message.
    WriteError(String),
    /// Reading image data failed; carries the codec's message.
    ReadError(String),
    SubimageNotFound,
    ChannelNotFound,
    InvalidChannelIndex,
    InvalidAttributeNameOrType,
    BufferTooSmall,
}

impl Error {
    /// A human-readable description: a fixed phrase per variant, with the
    /// codec's message appended where one is carried.
    pub fn message(&self) -> (r: String)
        ensures
            r@ == (match self {
                Error::OpenError(msg) => "error opening image: "@ + msg@,
                Error::WriteError(msg) => "error writing image data: "@ + msg@,
                Error::ReadError(msg) => "error reading image data: "@ + msg@,
                Error::SubimageNotFound => "non-existent subimage"@,
                Error::ChannelNotFound => "non-existent channel"@,
                Error::InvalidChannelIndex => "non-existent channel index"@,
                Error::InvalidAttributeNameOrType => (
                "non-existent attribute or incorrect type for attribute"@),
                Error::BufferTooSmall => "buffer was too small"@,
            }),
    {
        match self {
            Error::OpenError(msg) => {
                let mut s = "error opening image: ".to_owned();
                s.append(msg.as_str());
                s
            },
            Error::WriteError(msg) => {
                let mut s = "error writing image data: ".to_owned();
                s.append(msg.as_str());
                s
            },
            Error::ReadError(msg) => {
                let mut s = "error reading image data: ".to_owned();
                s.append(msg.as_str());
                s
            },
            Error::SubimageNotFound => "non-existent subimage".to_owned(),
            Error::ChannelNotFound => "non-existent channel".to_owned(),
            Error::InvalidChannelIndex => "non-existent channel index".to_owned(),
            Error::InvalidAttributeNameOrType => {
                "non-existent attribute or incorrect type for attribute".to_owned()
            },
            Error::BufferTooSmall => "buffer was too small".to_owned(),
        }
    }
}

/// One channel of an image: its name.
#[derive(Clone, Debug, PartialEq, Eq, Hash)]
pub struct ChannelDesc {
    pub name: String,
}

/// The description of a decoded image: extents and channel list.
#[derive(Debug)]
pub struct ImageSpec {
    pub width: u32,
    pub height: u32,
    pub depth: u32,
    pub channels: Vec<ChannelDesc>,
}

impl ImageSpec {
    /// The channels, in file order.
    pub fn channels(&self) -> (r: &Vec<ChannelDesc>)
        ensures
            r@ == self.channels@,
    {
        &self.channels
    }
}

fn copy_channels(v: &Vec<ChannelDesc>) -> (r: Vec<ChannelDesc>)
    ensures
        r@ == v@,
{
    let mut r: Vec<ChannelDesc> = Vec::new();
    let mut i: usize = 0;
    while i < v.len()
        invariant
            0 <= i <= v@.len(),
            r@ == v@.take(i as int),
        decreases v@.len() - i,
    {
        r.push(ChannelDesc { name: v[i].name.clone() });
        proof {
            assert(r@ =~= v@.take(i as int + 1));
        }
        i = i + 1;
    }
    proof {
        assert(v@.take(v@.len() as int) =~= v@);
    }
    r
}

fn copy_spec(s: &ImageSpec) -> (r: ImageSpec)
    ensures
        r.width == s.width,
        r.height == s.height,
        r.depth == s.depth,
        r.channels@ == s.channels@,
{
    ImageSpec {
        width: s.width,
        height: s.height,
        depth: s.depth,
        channels: copy_channels(&s.channels),
    }
}

/// The images the native codec has decoded, registered under their file
/// paths. Entries are looked up in registration order.
#[derive(Debug)]
pub struct ImageStore {
    pub entries: Vec<(String, ImageSpec)>,
}

/// The first registered entry whose path matches, if any.
pub open spec fn spec_find_image(entries: Seq<(String, ImageSpec)>, path: Seq<char>) -> Option<
    int,
>
    decreases entries.len(),
{
    if entries.len() == 0 {
        None
    } else if entries.first().0@ == path {
        Some(0)
    } else {
        match spec_find_image(entries.drop_first(), path) {
            None => None,
            Some(i) => Some(i + 1),
        }
    }
}

impl ImageStore {
    /// An empty registry.
    pub fn new() -> (r: ImageStore)
        ensures
            r.entries@.len() == 0,
    {
        ImageStore { entries: Vec::new() }
    }

    /// Registers a decoded image under its file path.
    pub fn insert(&mut self, path: String, spec: ImageSpec)
        ensures
            final(self).entries@ == old(self).entries@.push((path, spec)),
    {
        self.entries.push((path, spec));
    }
}

/// An opened image: the description of the decoded file.
#[derive(Debug)]
pub struct ImageInput {
    desc: ImageSpec,
}

impl ImageInput {
    /// What was opened.
    pub closed spec fn spec_desc(&self) -> (u32, u32, u32, Seq<ChannelDesc>) {
        (self.desc.width, self.desc.height, self.desc.depth, self.desc.channels@)
    }

    /// Opens an image file that the native codec has decoded into the
    /// store. Succeeds if and only if the path is registered, yielding the
    /// first entry registered under it; otherwise reports an open error
    /// naming the path.
    pub fn open(store: &ImageStore, path: &str) -> (r: Result<ImageInput, Error>)
        ensures
            r is Ok <==> spec_find_image(store.entries@, path@) is Some,
            r is Ok ==> ({
                let entry = store.entries@[spec_find_image(store.entries@, path@)->Some_0];
                r->Ok_0.spec_desc() == (entry.1.width, entry.1.height, entry.1.depth, entry.1.channels@)
            }),
            r is Err ==> (match r->Err_0 {
                Error::OpenError(msg) => msg@ == path@,
                _ => false,
            }),
    {
        let ghost all = store.entries@;
        proof {
            assert(all.skip(0) =~= all);
        }
        let n = store.entries.len();
        let mut i: usize = 0;
        let key = path.to_owned();
        while i < n
            invariant
                0 <= i <= n,
                all == store.entries@,
                n == all.len(),
                key@ == path@,
                spec_find_image(all, path@) == (match spec_find_image(all.skip(i as int), path@) {
                    None => None::<int>,
                    Some(j) => Some(j + i),
                }),
            decreases n - i,
        {
            proof {
                assert(all.skip(i as int).first() == all[i as int]);
                assert(all.skip(i as int).drop_first() =~= all.skip(i as int + 1));
            }
            if store.entries[i].0 == key {
                let desc = copy_spec(&store.entries[i].1);
                proof {
                    assert(spec_find_image(all.skip(i as int), path@) == Some(0int));
                }
                return Ok(ImageInput { desc });
            }
            i = i + 1;
        }
        proof {
            assert(all.skip(n as int) =~= Seq::<(String, ImageSpec)>::empty());
        }
        Err(Error::OpenError(key))
    }

    /// The description of the opened image.
    pub fn image_spec(&self) -> (r: &ImageSpec)
        ensures
            r.width == self.spec_desc().0,
            r.height == self.spec_desc().1,
            r.depth == self.spec_desc().2,
            r.channels@ == self.spec_desc().3,
    {
        &self.desc
    }

    /// Width of the image in pixels.
    pub fn width(&self) -> (r: u32)
        ensures
            r == self.spec_desc().0,
    {
        self.desc.width
    }

    /// Height of the image in pixels.
    pub fn height(&self) -> (r: u32)
        ensures
            r == self.spec_desc().1,
    {
        self.desc.height
    }

    /// Depth of the image in pixels.
    pub fn depth(&self) -> (r: u32)
        ensures
            r == self.spec_desc().2,
    {
        self.desc.depth
    }
}

} // verus!
