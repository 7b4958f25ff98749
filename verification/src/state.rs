//! The state of the tool and the dispatcher that alone changes it.

use vstd::prelude::*;
use crate::action::{Action, ActionView, Effect, EffectView};
use crate::image::{DecodedView, Image, ImageView};

verus! {

/// All that the tool remembers while it runs.
#[derive(Debug, Clone)]
pub struct AppState<S> {
    /// The image that is being worked on.
    pub image: Image<S>,
    /// Whether the preview shows the printable picture rather than the untouched one.
    pub preview: bool,
}

/// The two pictures that a sticker has: the one that was decoded, and the one that will
/// be printed.
#[derive(Debug, Clone, Copy, PartialEq, Eq, Structural)]
pub enum Raster {
    /// The picture as it was decoded, untouched.
    Raw,
    /// The picture after the default transform and all turns: what is printed.
    Transformed,
}

/// An [`AppState`] seen through the view of its image.
pub struct AppView<S> {
    pub image: ImageView<S>,
    pub preview: bool,
}

impl<S> View for AppState<S> {
    type V = AppView<S>;

    open spec fn view(&self) -> AppView<S> {
        AppView { image: self.image@, preview: self.preview }
    }
}

impl<S> AppView<S> {
    /// The state at start: no image, preview on.
    pub open spec fn initial() -> Self {
        AppView { image: ImageView::Absent, preview: true }
    }

    /// The picture that the screen shows of a sticker: the printable one while the preview
    /// is on, the untouched one while it is off.
    pub open spec fn shown(self) -> Raster {
        if self.preview {
            Raster::Transformed
        } else {
            Raster::Raw
        }
    }

    /// Whether `action` fits this state. A completion fits only the load that it answers;
    /// turning and printing need a loaded image.
    pub open spec fn admits(self, action: ActionView<S>) -> bool {
        match action {
            ActionView::LoadedImage(path, _) => self.image.awaits(path),
            ActionView::Rotate(_) => self.image is Loaded,
            ActionView::PrintSticker(_) => self.image is Loaded,
            _ => true,
        }
    }

    /// The state after `action` was taken in.
    pub open spec fn after(self, action: ActionView<S>) -> Self {
        match action {
            ActionView::TogglePreview => AppView { preview: !self.preview, ..self },
            ActionView::LoadImage(path) => AppView {
                image: ImageView::Loading { path },
                ..self
            },
            ActionView::LoadedImage(path, res) => if self.image.awaits(path) {
                AppView { image: ImageView::settled(path, res), ..self }
            } else {
                self
            },
            _ => self,
        }
    }

    /// What the shell is asked to do when `action` is taken in.
    pub open spec fn effect_of(self, action: ActionView<S>) -> EffectView {
        if !self.admits(action) {
            EffectView::Discarded
        } else {
            match action {
                ActionView::SelectImage => EffectView::PickFile,
                ActionView::LoadImage(path) => EffectView::ReadFile(path),
                ActionView::Rotate(direction) => EffectView::RotateSticker(direction),
                ActionView::PrintSticker(copies) => EffectView::PrintSticker(copies),
                _ => EffectView::Idle,
            }
        }
    }
}

impl<S> AppState<S> {
    /// The state at start: no image, preview on.
    pub fn new() -> (state: Self)
        ensures
            state@ == AppView::<S>::initial(),
    {
        AppState { image: Image::none(), preview: true }
    }

    /// The picture that the screen is to show of the sticker.
    pub fn shown(&self) -> (raster: Raster)
        ensures
            raster == self@.shown(),
    {
        if self.preview {
            Raster::Transformed
        } else {
            Raster::Raw
        }
    }

    /// Takes in one event: changes the state as the event asks and returns what the shell
    /// has to do. An event that does not fit the state changes nothing and is reported as
    /// discarded.
    pub fn update(&mut self, message: Action<S>) -> (effect: Effect)
        ensures
            final(self)@ == old(self)@.after(message@),
            effect@ == old(self)@.effect_of(message@),
    {
        match message {
            Action::SelectImage => Effect::PickFile,
            Action::TogglePreview => {
                self.preview = !self.preview;
                Effect::Idle
            },
            Action::LoadImage(path) => {
                let asked = path.clone();
                self.image.loading(path);
                Effect::ReadFile(asked)
            },
            Action::LoadedImage(path, res) => {
                if self.image.loaded(&path, res) {
                    Effect::Idle
                } else {
                    Effect::Discarded
                }
            },
            Action::Rotate(direction) => {
                match &self.image {
                    Image::Loaded { .. } => Effect::RotateSticker(direction),
                    _ => Effect::Discarded,
                }
            },
            Action::PrintSticker(copies) => {
                match &self.image {
                    Image::Loaded { .. } => Effect::PrintSticker(copies),
                    _ => Effect::Discarded,
                }
            },
        }
    }
}

/// A completion that comes late does not touch what a newer load has set up. When a load
/// of `first` is superseded by a load of another path `second`, a completion that answers
/// `first` is discarded: the state still awaits `second`, whatever the completion holds
/// and whatever the state was before the two loads.
pub proof fn law_superseded_completion_is_discarded<S>(
    state: AppView<S>,
    first: Seq<char>,
    second: Seq<char>,
    late: Result<DecodedView<S>, Seq<char>>,
)
    requires
        first != second,
    ensures
        ({
            let superseded = state.after(ActionView::LoadImage(first)).after(
                ActionView::LoadImage(second),
            );
            let completion = ActionView::LoadedImage(first, late);
            &&& superseded.image == (ImageView::<S>::Loading { path: second })
            &&& superseded.after(completion) == superseded
            &&& superseded.effect_of(completion) == EffectView::Discarded
        }),
{
}

/// An image becomes loaded or errored only by the completion of the load that is in
/// flight for its path: if an action leaves the image `Loaded` or `Errored` and changed
/// it at all, the action was a completion tagged with the path that was being read, and
/// the image is what that completion settles to under this path.
pub proof fn law_only_pending_load_settles<S>(state: AppView<S>, action: ActionView<S>)
    requires
        state.after(action).image is Loaded || state.after(action).image is Errored,
        state.after(action).image != state.image,
    ensures
        action is LoadedImage,
        state.image == (ImageView::<S>::Loading { path: action->LoadedImage_0 }),
        state.after(action).image == ImageView::settled(
            action->LoadedImage_0,
            action->LoadedImage_1,
        ),
{
}

/// An action that does not fit the state changes nothing and is reported as discarded,
/// and no other action is: the shell is told so exactly when a completion finds no
/// matching load in flight, or a turn or a print finds no loaded image.
pub proof fn law_misfit_action_is_discarded<S>(state: AppView<S>, action: ActionView<S>)
    ensures
        !state.admits(action) ==> state.after(action) == state,
        state.effect_of(action) == EffectView::Discarded <==> !state.admits(action),
{
}

/// The image changes only when a load starts or ends, and the preview only when it is
/// toggled: choosing a file, turning and printing leave the state as it is, whether a
/// print job fails or not.
pub proof fn law_state_changes_only_by_load_and_toggle<S>(state: AppView<S>, action: ActionView<S>)
    ensures
        state.after(action).image != state.image ==> action is LoadImage || action is LoadedImage,
        state.after(action).preview != state.preview ==> action is TogglePreview,
        action is SelectImage || action is Rotate || action is PrintSticker ==> state.after(action)
            == state,
{
}

} // verus!
