use toniator_app::source_notice::SourceNotice;

#[test]
fn source_notice_tracks_current_rate_and_dismisses_only_its_own_message() {
    let mut notice = SourceNotice {
        variable_frame_rate: true,
        has_audio: true,
        ..Default::default()
    };
    let original = notice.message(30, 1).unwrap();
    assert!(original.contains("exports are silent"));
    assert!(original.contains("Frames may repeat or be skipped"));
    notice.dismiss();
    assert_eq!(notice.message(30, 1), Some(original.clone()));
    notice.presented = true;
    notice.dismiss();
    assert_eq!(notice.message(30, 1), None);
    notice.dismissed = false;
    notice.variable_frame_rate = false;
    assert_eq!(
        notice.message(30, 1).unwrap(),
        "Source contains audio; exports are silent."
    );
    notice.has_audio = false;
    assert!(notice.message(30, 1).is_none());
    notice.variable_frame_rate = true;
    assert!(notice.message(30000, 1001).unwrap().contains("30000/1001 fps"));
}

#[test]
fn source_notice_joins_both_disclosures_with_one_space() {
    let notice = SourceNotice::new(true, true);
    assert_eq!(
        notice.message(24, 1).unwrap(),
        "Variable frame rate source. Project uses 24 fps; adjust in Animation settings. \
         Frames may repeat or be skipped. Source contains audio; exports are silent."
    );
    let silent = SourceNotice::new(true, false);
    assert_eq!(
        silent.message(0, 1).unwrap(),
        "Variable frame rate source. Project uses 0 fps; adjust in Animation settings. \
         Frames may repeat or be skipped."
    );
    assert_eq!(SourceNotice::new(false, false).message(24, 1), None);
}
