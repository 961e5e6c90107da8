//! Mounting the developer disk image: what is to be done next, and when the device is ready.
use vstd::prelude::*;

use crate::property_list::{plist_of, unique_chip_id, unsigned_in};
use crate::text::outcome_view;

verus! {

/// The work to do next for the disk image.
#[derive(Debug)]
pub enum ImageAction {
    /// Ask the device for its chip identifier.
    AskChipId,
    /// Mount the image that is personalized for the chip.
    Mount { chip_id: u64 },
    /// Nothing: this is how it went.
    Done(Result<bool, String>),
}

/// What an `ImageAction` says.
pub ghost enum ImageActionView {
    AskChipId,
    Mount { chip_id: u64 },
    Done(Result<bool, Seq<char>>),
}

impl View for ImageAction {
    type V = ImageActionView;

    open spec fn view(&self) -> ImageActionView {
        match *self {
            ImageAction::AskChipId => ImageActionView::AskChipId,
            ImageAction::Mount { chip_id } => ImageActionView::Mount { chip_id },
            ImageAction::Done(outcome) => ImageActionView::Done(outcome_view(outcome)),
        }
    }
}

/// What follows the number of images that are mounted: one is enough.
pub open spec fn after_counting(mounted: Result<usize, String>) -> ImageActionView {
    match mounted {
        Ok(count) => if count > 0 {
            ImageActionView::Done(Ok(true))
        } else {
            ImageActionView::AskChipId
        },
        Err(error) => ImageActionView::Done(Err(error@)),
    }
}

/// What follows the number of images that are mounted: one is enough.
pub fn images_counted(mounted: Result<usize, String>) -> (action: ImageAction)
    ensures
        action@ == after_counting(mounted),
{
    match mounted {
        Ok(count) => if count > 0 {
            ImageAction::Done(Ok(true))
        } else {
            ImageAction::AskChipId
        },
        Err(error) => ImageAction::Done(Err(error)),
    }
}

/// What follows the device's answer: the image is mounted if the answer is a chip identifier.
pub open spec fn after_answer(answer: Result<plist::Value, String>) -> ImageActionView {
    match answer {
        Ok(value) => match unsigned_in(plist_of(value)) {
            Some(chip_id) => ImageActionView::Mount { chip_id },
            None => ImageActionView::Done(Err("missing UniqueChipID in lockdown response"@)),
        },
        Err(error) => ImageActionView::Done(Err(error@)),
    }
}

/// What follows the device's answer: the image is mounted if the answer is a chip identifier.
pub fn chip_id_answered(answer: Result<plist::Value, String>) -> (action: ImageAction)
    ensures
        action@ == after_answer(answer),
{
    match answer {
        Ok(value) => match unique_chip_id(&value) {
            Ok(chip_id) => ImageAction::Mount { chip_id },
            Err(error) => ImageAction::Done(Err(error)),
        },
        Err(error) => ImageAction::Done(Err(error)),
    }
}

/// What follows mounting.
pub open spec fn after_mounting(outcome: Result<(), String>) -> ImageActionView {
    match outcome {
        Ok(_) => ImageActionView::Done(Ok(true)),
        Err(error) => ImageActionView::Done(Err(error@)),
    }
}

/// What follows mounting.
pub fn image_mounted(outcome: Result<(), String>) -> (action: ImageAction)
    ensures
        action@ == after_mounting(outcome),
{
    match outcome {
        Ok(_) => ImageAction::Done(Ok(true)),
        Err(error) => ImageAction::Done(Err(error)),
    }
}

} // verus!
