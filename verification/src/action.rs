//! The events that the state machine takes, and what it asks of the shell in return.

use vstd::prelude::*;
use crate::image::{Decoded, DecodedView, completion_view};

verus! {

/// A quarter turn of the sticker, to the left or to the right.
#[derive(Debug, Clone, Copy, PartialEq, Eq, Structural)]
pub enum Rotation {
    Left,
    Right,
}

/// An event: something the user did, or the end of a read that was asked for.
#[derive(Debug)]
pub enum Action<S> {
    /// The user wants to choose a file.
    SelectImage,
    /// The user switched the preview between the printable and the untouched picture.
    TogglePreview,
    /// A file was chosen or dropped: load it.
    LoadImage(String),
    /// The read of the named path has ended: with the decoded file, or with the message
    /// of the read or of the codec that failed.
    LoadedImage(String, Result<Decoded<S>, String>),
    /// Turn the sticker.
    Rotate(Rotation),
    /// Print the sticker this many times.
    PrintSticker(u8),
}

/// An [`Action`] with its strings and bytes as sequences.
pub enum ActionView<S> {
    SelectImage,
    TogglePreview,
    LoadImage(Seq<char>),
    LoadedImage(Seq<char>, Result<DecodedView<S>, Seq<char>>),
    Rotate(Rotation),
    PrintSticker(u8),
}

impl<S> View for Action<S> {
    type V = ActionView<S>;

    open spec fn view(&self) -> ActionView<S> {
        match *self {
            Action::SelectImage => ActionView::SelectImage,
            Action::TogglePreview => ActionView::TogglePreview,
            Action::LoadImage(path) => ActionView::LoadImage(path@),
            Action::LoadedImage(path, res) => ActionView::LoadedImage(path@, completion_view(res)),
            Action::Rotate(direction) => ActionView::Rotate(direction),
            Action::PrintSticker(copies) => ActionView::PrintSticker(copies),
        }
    }
}

impl<S: Clone> Clone for Action<S> {
    fn clone(&self) -> (copy: Self) {
        match self {
            Action::SelectImage => Action::SelectImage,
            Action::TogglePreview => Action::TogglePreview,
            Action::LoadImage(path) => Action::LoadImage(path.clone()),
            Action::LoadedImage(path, res) => {
                let res = match res {
                    Ok(decoded) => Ok(decoded.clone()),
                    Err(error) => Err(error.clone()),
                };
                Action::LoadedImage(path.clone(), res)
            },
            Action::Rotate(direction) => Action::Rotate(*direction),
            Action::PrintSticker(copies) => Action::PrintSticker(*copies),
        }
    }
}

/// What the shell has to do after an [`Action`] was taken in.
#[derive(Debug, Clone, PartialEq, Eq)]
pub enum Effect {
    /// Nothing.
    Idle,
    /// Let the user pick one file among those that [`picker_extensions`] admits, and hand
    /// in `LoadImage` with its path if one was picked.
    PickFile,
    /// Read the bytes at this path without blocking, let the codec decode them, and hand
    /// in `LoadedImage` with this path and what came of it. A file whose load is no longer
    /// awaited need not be decoded: its completion is discarded whatever it holds.
    ReadFile(String),
    /// Let the codec turn the loaded sticker in place.
    RotateSticker(Rotation),
    /// Send the loaded sticker to the printer this many times, one job after the other.
    PrintSticker(u8),
    /// The action did not fit the state and was dropped; the state is as it was.
    Discarded,
}

/// An [`Effect`] with its path as a sequence.
pub enum EffectView {
    Idle,
    PickFile,
    ReadFile(Seq<char>),
    RotateSticker(Rotation),
    PrintSticker(u8),
    Discarded,
}

impl View for Effect {
    type V = EffectView;

    open spec fn view(&self) -> EffectView {
        match *self {
            Effect::Idle => EffectView::Idle,
            Effect::PickFile => EffectView::PickFile,
            Effect::ReadFile(path) => EffectView::ReadFile(path@),
            Effect::RotateSticker(direction) => EffectView::RotateSticker(direction),
            Effect::PrintSticker(copies) => EffectView::PrintSticker(copies),
            Effect::Discarded => EffectView::Discarded,
        }
    }
}

/// The file name extensions that the file picker admits, in the order in which they are
/// offered: `jpg`, `jpeg`, `png`, `svg`.
pub fn picker_extensions() -> (extensions: Vec<&'static str>)
    ensures
        extensions@.len() == 4,
        extensions@[0]@ == "jpg"@,
        extensions@[1]@ == "jpeg"@,
        extensions@[2]@ == "png"@,
        extensions@[3]@ == "svg"@,
{
    let mut extensions: Vec<&'static str> = Vec::new();
    extensions.push("jpg");
    extensions.push("jpeg");
    extensions.push("png");
    extensions.push("svg");
    extensions
}

} // verus!
