//! The face search page: it reports what its search bar asks for.
use vstd::prelude::*;

use std::path::PathBuf;

use crate::searchbar::{SearchBarInput, SearchBarOutput};

verus! {

/// The state of the face page; its search bar lives with its widgets.
pub struct FaceModel {}

/// A message to the face page.
#[derive(Debug)]
pub enum FaceInput {
    StartSearch(PathBuf),
    StopSearch,
    SearchCompleted(usize),
    Notify(String, u32),
}

/// What the face page asks of its widgets after a message.
#[derive(Debug)]
pub enum FaceAction {
    /// Print the folder that a search was asked for.
    ShowPath(PathBuf),
    /// Print that the search was stopped.
    ShowStopSearch,
    /// Print the count of a finished search and pass this message to the search bar.
    ShowSearchCount(usize, SearchBarInput),
    /// Print a notice and its timeout.
    ShowNotice(String, u32),
}

/// The page's input for a report of its search bar.
pub open spec fn face_message(output: SearchBarOutput) -> FaceInput {
    match output {
        SearchBarOutput::StartSearch(path) => FaceInput::StartSearch(path),
        SearchBarOutput::StopSearch => FaceInput::StopSearch,
        SearchBarOutput::Notify(msg, timeout) => FaceInput::Notify(msg, timeout),
    }
}

/// What the page does with an input.
pub open spec fn face_step(message: FaceInput) -> FaceAction {
    match message {
        FaceInput::StartSearch(path) => FaceAction::ShowPath(path),
        FaceInput::StopSearch => FaceAction::ShowStopSearch,
        FaceInput::SearchCompleted(count) => FaceAction::ShowSearchCount(count, SearchBarInput::SearchCompleted),
        FaceInput::Notify(msg, timeout) => FaceAction::ShowNotice(msg, timeout),
    }
}

/// The page's input for a report of its search bar.
pub fn face_input(output: SearchBarOutput) -> (message: FaceInput)
    ensures
        message == face_message(output),
{
    match output {
        SearchBarOutput::StartSearch(path) => FaceInput::StartSearch(path),
        SearchBarOutput::StopSearch => FaceInput::StopSearch,
        SearchBarOutput::Notify(msg, timeout) => FaceInput::Notify(msg, timeout),
    }
}

impl FaceModel {
    pub fn new() -> (model: FaceModel) {
        FaceModel {}
    }

    /// Handles an input: returns the action `face_step` names.
    pub fn update_with_view(&self, message: FaceInput) -> (action: FaceAction)
        ensures
            action == face_step(message),
    {
        match message {
            FaceInput::StartSearch(path) => FaceAction::ShowPath(path),
            FaceInput::StopSearch => FaceAction::ShowStopSearch,
            FaceInput::SearchCompleted(count) => FaceAction::ShowSearchCount(count, SearchBarInput::SearchCompleted),
            FaceInput::Notify(msg, timeout) => FaceAction::ShowNotice(msg, timeout),
        }
    }
}

} // verus!
