//! The one image that is being worked on, from selection to a printable sticker.

use vstd::prelude::*;

verus! {

/// The life of the image: absent, being read, ready, or failed.
///
/// `S` is the printable sticker as the codec hands it out. Nothing here looks inside it.
#[derive(Debug, Clone)]
pub enum Image<S> {
    /// No image is selected.
    Absent,
    /// A read of `path` is in flight.
    Loading { path: String },
    /// `path` was read and decoded: `data` holds its bytes, `sticker` what is printed.
    Loaded { path: String, data: Vec<u8>, sticker: S },
    /// The read or the decoding of `path` failed with the message `error`.
    Errored { path: String, error: String },
}

/// What an [`Image`] is, with its strings and bytes as sequences.
pub enum ImageView<S> {
    Absent,
    Loading { path: Seq<char> },
    Loaded { path: Seq<char>, data: Seq<u8>, sticker: S },
    Errored { path: Seq<char>, error: Seq<char> },
}

impl<S> View for Image<S> {
    type V = ImageView<S>;

    open spec fn view(&self) -> ImageView<S> {
        match self {
            Image::Absent => ImageView::Absent,
            Image::Loading { path } => ImageView::Loading { path: path@ },
            Image::Loaded { path, data, sticker } => ImageView::Loaded {
                path: path@,
                data: data@,
                sticker: *sticker,
            },
            Image::Errored { path, error } => ImageView::Errored { path: path@, error: error@ },
        }
    }
}

/// The bytes of a file together with the sticker that the codec made of them.
#[derive(Debug, Clone)]
pub struct Decoded<S> {
    /// The bytes as they were read.
    pub data: Vec<u8>,
    /// The sticker decoded from `data`, after the default transform.
    pub sticker: S,
}

/// A [`Decoded`] with its bytes as a sequence.
pub struct DecodedView<S> {
    pub data: Seq<u8>,
    pub sticker: S,
}

impl<S> View for Decoded<S> {
    type V = DecodedView<S>;

    open spec fn view(&self) -> DecodedView<S> {
        DecodedView { data: self.data@, sticker: self.sticker }
    }
}

/// The view of what a load came back with: the decoded file, or the message of what failed.
pub open spec fn completion_view<S>(res: Result<Decoded<S>, String>) -> Result<
    DecodedView<S>,
    Seq<char>,
> {
    match res {
        Ok(decoded) => Ok(decoded@),
        Err(error) => Err(error@),
    }
}

impl<S> ImageView<S> {
    /// Whether a read of `path` is in flight.
    pub open spec fn awaits(self, path: Seq<char>) -> bool {
        self == (ImageView::<S>::Loading { path })
    }

    /// The state that a load of `path` ends in when it came back with `res`.
    pub open spec fn settled(path: Seq<char>, res: Result<DecodedView<S>, Seq<char>>) -> Self {
        match res {
            Ok(decoded) => ImageView::Loaded { path, data: decoded.data, sticker: decoded.sticker },
            Err(error) => ImageView::Errored { path, error },
        }
    }
}

impl<S> Image<S> {
    /// The state before anything was selected.
    pub fn none() -> (image: Self)
        ensures
            image@ == ImageView::<S>::Absent,
    {
        Image::Absent
    }

    /// Starts a load of `path`, whatever went before: the last request wins.
    pub fn loading(&mut self, path: String)
        ensures
            final(self)@ == (ImageView::<S>::Loading { path: path@ }),
    {
        *self = Image::Loading { path };
    }

    /// Whether a read of `path` is in flight, so that its completion would be taken.
    pub fn awaits(&self, path: &String) -> (awaited: bool)
        ensures
            awaited == self@.awaits(path@),
    {
        match self {
            Image::Loading { path: pending } => *pending == *path,
            _ => false,
        }
    }

    /// Takes in what came back for the read of `path`, if that read is the one in flight.
    ///
    /// Then a decoded file makes the image `Loaded` under `path`, and a failure of the
    /// read or of the codec makes it `Errored`, its message kept as it came. A completion
    /// for any other path, or one that finds no load in flight, is stale: the image stays
    /// as it is and the answer is `false`.
    pub fn loaded(&mut self, path: &String, res: Result<Decoded<S>, String>) -> (taken: bool)
        ensures
            taken == old(self)@.awaits(path@),
            taken ==> final(self)@ == ImageView::settled(path@, completion_view(res)),
            taken ==> (res matches Ok(decoded) ==> final(self)@ == (ImageView::Loaded {
                path: path@,
                data: decoded.data@,
                sticker: decoded.sticker,
            })),
            taken ==> (res matches Err(error) ==> final(self)@ == (ImageView::<S>::Errored {
                path: path@,
                error: error@,
            })),
            !taken ==> final(self)@ == old(self)@,
    {
        if !self.awaits(path) {
            return false;
        }
        let path = path.clone();
        *self = match res {
            Ok(decoded) => Image::Loaded { path, data: decoded.data, sticker: decoded.sticker },
            Err(error) => Image::Errored { path, error },
        };
        true
    }

    /// The sticker of a loaded image.
    pub fn sticker(&self) -> (sticker: &S)
        requires
            self@ is Loaded,
        ensures
            *sticker == self@->sticker,
    {
        match self {
            Image::Loaded { sticker, .. } => sticker,
            _ => unreached(),
        }
    }

    /// The sticker of a loaded image, for the codec to transform in place.
    ///
    /// Path and bytes stay as they are; the image holds whatever the sticker is changed to.
    pub fn sticker_mut(&mut self) -> (sticker: &mut S)
        requires
            old(self)@ is Loaded,
        ensures
            *sticker == old(self)@->sticker,
            final(self)@ == (ImageView::Loaded {
                path: old(self)@->Loaded_path,
                data: old(self)@->data,
                sticker: *final(sticker),
            }),
    {
        match self {
            Image::Loaded { sticker, .. } => sticker,
            _ => unreached(),
        }
    }
}

} // verus!
