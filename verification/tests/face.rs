use std::path::PathBuf;

use chasam::face::{face_input, FaceAction, FaceInput, FaceModel};
use chasam::searchbar::{SearchBarInput, SearchBarOutput};

#[test]
fn face_actions() {
    let model = FaceModel::new();
    match model.update_with_view(FaceInput::StartSearch(PathBuf::from("/x"))) {
        FaceAction::ShowPath(p) => assert_eq!(p, PathBuf::from("/x")),
        other => panic!("unexpected {:?}", other),
    }
    assert!(matches!(model.update_with_view(FaceInput::StopSearch), FaceAction::ShowStopSearch));
    assert!(matches!(
        model.update_with_view(FaceInput::SearchCompleted(5)),
        FaceAction::ShowSearchCount(5, SearchBarInput::SearchCompleted)
    ));
    match model.update_with_view(FaceInput::Notify("n".to_string(), 1)) {
        FaceAction::ShowNotice(m, t) => {
            assert_eq!(m, "n");
            assert_eq!(t, 1);
        }
        other => panic!("unexpected {:?}", other),
    }
}

#[test]
fn face_searchbar_outputs() {
    assert!(matches!(face_input(SearchBarOutput::StopSearch), FaceInput::StopSearch));
    assert!(matches!(face_input(SearchBarOutput::StartSearch(PathBuf::from("/a"))), FaceInput::StartSearch(_)));
    assert!(matches!(face_input(SearchBarOutput::Notify("m".to_string(), 9)), FaceInput::Notify(_, 9)));
}
