use imm_context::{
    candidate_window_forms, cursor_byte_offset, cursor_code_units, CandidateForm,
    CompositionRead, PlacementStyle, Point, ReadAction, ReadEvent, Rect, GCS_COMPSTR,
    GCS_CURSORPOS, GCS_RESULTSTR, IMM_ERROR_GENERAL, IMM_ERROR_NODATA,
};

/// Runs a whole read against fixed native answers and returns the result, with
/// the list of requests that were made.
fn run_read(
    kind: u32,
    probe: i32,
    fill: i32,
    buffer: Vec<u16>,
    cursor: i32,
) -> (Option<(String, usize)>, Vec<ReadAction>) {
    let mut requests = Vec::new();
    let (mut state, mut action) = CompositionRead::start(kind);
    let mut buffer = Some(buffer);
    loop {
        let event = match &action {
            ReadAction::Probe { kind } if *kind == GCS_CURSORPOS => {
                ReadEvent::Returned { value: cursor }
            }
            ReadAction::Probe { .. } => ReadEvent::Returned { value: probe },
            ReadAction::Fill { .. } => ReadEvent::Filled {
                value: fill,
                buffer: buffer.take().expect("one fill per read"),
            },
            ReadAction::Finish { result } => return (result.clone(), requests),
        };
        requests.push(action);
        let next = state.step(event);
        state = next.0;
        action = next.1;
    }
}

fn is_fill(a: &ReadAction) -> bool {
    matches!(a, ReadAction::Fill { .. })
}

#[test]
fn candidate_forms_anchor_then_exclude() {
    let p = Point { x: 120, y: -45 };
    let forms = candidate_window_forms(p);
    assert_eq!(forms.len(), 2);
    assert_eq!(
        forms[0],
        CandidateForm {
            index: 0,
            style: PlacementStyle::CandidatePosition,
            current_pos: p,
            area: Rect { left: 0, top: 0, right: 0, bottom: 0 },
        }
    );
    assert_eq!(
        forms[1],
        CandidateForm {
            index: 0,
            style: PlacementStyle::Exclude,
            current_pos: p,
            area: Rect { left: 120, top: -45, right: 120, bottom: -45 },
        }
    );
}

#[test]
fn candidate_forms_at_extreme_points() {
    let p = Point { x: i32::MIN, y: i32::MAX };
    let forms = candidate_window_forms(p);
    assert_eq!(forms[0].current_pos, p);
    assert_eq!(forms[1].current_pos, p);
    assert_eq!(forms[1].area, Rect { left: i32::MIN, top: i32::MAX, right: i32::MIN, bottom: i32::MAX });
}

#[test]
fn start_probes_the_requested_string() {
    let (state, action) = CompositionRead::start(GCS_RESULTSTR);
    assert_eq!(state, CompositionRead::AwaitingLength { kind: GCS_RESULTSTR });
    assert_eq!(action, ReadAction::Probe { kind: GCS_RESULTSTR });
}

#[test]
fn no_data_probe_ends_without_fill() {
    let (result, requests) = run_read(GCS_COMPSTR, IMM_ERROR_NODATA, 4, vec![0x61, 0x62], 1);
    assert_eq!(result, None);
    assert!(!requests.iter().any(is_fill));
}

#[test]
fn general_error_probe_ends_without_fill() {
    let (result, requests) = run_read(GCS_COMPSTR, IMM_ERROR_GENERAL, 4, vec![0x61, 0x62], 1);
    assert_eq!(result, None);
    assert!(!requests.iter().any(is_fill));
}

#[test]
fn other_negative_probe_ends_without_fill() {
    let (result, requests) = run_read(GCS_COMPSTR, i32::MIN, 4, vec![0x61], 1);
    assert_eq!(result, None);
    assert!(!requests.iter().any(is_fill));
}

#[test]
fn fill_error_gives_no_data() {
    let (result, requests) = run_read(GCS_COMPSTR, 4, IMM_ERROR_GENERAL, vec![0x61, 0x62], 1);
    assert_eq!(result, None);
    assert_eq!(requests.iter().filter(|a| is_fill(a)).count(), 1);
}

#[test]
fn fill_request_holds_whole_code_units() {
    let (state, _) = CompositionRead::start(GCS_COMPSTR);
    let (state, action) = state.step(ReadEvent::Returned { value: 7 });
    assert_eq!(state, CompositionRead::AwaitingFill { kind: GCS_COMPSTR });
    assert_eq!(action, ReadAction::Fill { kind: GCS_COMPSTR, units: 3, byte_len: 6 });
}

#[test]
fn fill_request_for_largest_probe() {
    let (state, _) = CompositionRead::start(GCS_COMPSTR);
    let (_, action) = state.step(ReadEvent::Returned { value: i32::MAX });
    assert_eq!(
        action,
        ReadAction::Fill { kind: GCS_COMPSTR, units: 1_073_741_823, byte_len: 2_147_483_646 }
    );
}

#[test]
fn single_cjk_unit_cursor_after_it() {
    let (result, _) = run_read(GCS_COMPSTR, 2, 2, vec![0x4E2D], 1);
    assert_eq!(result, Some(("中".to_string(), 3)));
}

#[test]
fn two_ascii_units_cursor_between() {
    let (result, _) = run_read(GCS_COMPSTR, 4, 4, vec![0x61, 0x62], 1);
    assert_eq!(result, Some(("ab".to_string(), 1)));
}

#[test]
fn cursor_at_start() {
    let (result, _) = run_read(GCS_COMPSTR, 4, 4, vec![0x61, 0x62], 0);
    assert_eq!(result, Some(("ab".to_string(), 0)));
}

#[test]
fn cursor_past_end_degrades_to_length() {
    let (result, _) = run_read(GCS_COMPSTR, 4, 4, vec![0x4E2D, 0x61], 40);
    assert_eq!(result, Some(("中a".to_string(), 4)));
}

#[test]
fn negative_cursor_keeps_low_bits() {
    let (result, _) = run_read(GCS_COMPSTR, 4, 4, vec![0x61, 0x62], -1);
    assert_eq!(result, Some(("ab".to_string(), 2)));
}

#[test]
fn unpaired_surrogate_is_replaced() {
    let (result, _) = run_read(GCS_COMPSTR, 6, 6, vec![0x61, 0xD800, 0x62], 3);
    assert_eq!(result, Some(("a\u{FFFD}b".to_string(), 5)));
}

#[test]
fn surrogate_pair_is_one_char() {
    let (result, _) = run_read(GCS_COMPSTR, 4, 4, vec![0xD83D, 0xDE00], 2);
    assert_eq!(result, Some(("\u{1F600}".to_string(), 4)));
}

#[test]
fn empty_composition_reads_empty_text() {
    let (result, requests) = run_read(GCS_COMPSTR, 0, 0, vec![], 0);
    assert_eq!(result, Some((String::new(), 0)));
    assert_eq!(requests[1], ReadAction::Fill { kind: GCS_COMPSTR, units: 0, byte_len: 0 });
}

#[test]
fn unexpected_event_ends_read() {
    let (state, _) = CompositionRead::start(GCS_COMPSTR);
    let (state, action) = state.step(ReadEvent::Filled { value: 2, buffer: vec![0x61] });
    assert_eq!(state, CompositionRead::Done);
    assert_eq!(action, ReadAction::Finish { result: None });
    let (state, action) = state.step(ReadEvent::Returned { value: 2 });
    assert_eq!(state, CompositionRead::Done);
    assert_eq!(action, ReadAction::Finish { result: None });
}

#[test]
fn cursor_mask_keeps_low_sixteen_bits() {
    assert_eq!(cursor_code_units(0), 0);
    assert_eq!(cursor_code_units(0x1_0005), 5);
    assert_eq!(cursor_code_units(-1), 0xFFFF);
    assert_eq!(cursor_code_units(IMM_ERROR_GENERAL), 0xFFFE);
    assert_eq!(cursor_code_units(i32::MIN), 0);
}

#[test]
fn cursor_offset_in_mixed_text() {
    let s = "a中\u{1F600}é";
    assert_eq!(cursor_byte_offset(s, 0), 0);
    assert_eq!(cursor_byte_offset(s, 1), 1);
    assert_eq!(cursor_byte_offset(s, 2), 4);
    assert_eq!(cursor_byte_offset(s, 3), 4);
    assert_eq!(cursor_byte_offset(s, 4), 8);
    assert_eq!(cursor_byte_offset(s, 5), 10);
    assert_eq!(cursor_byte_offset(s, u16::MAX), 10);
    assert_eq!(cursor_byte_offset("", 3), 0);
}
