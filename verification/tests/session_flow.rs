use recording_session::device::{AudioDevice, DeviceEventResponse, DeviceMonitorType};
use recording_session::error::RecordingError;
use recording_session::recording_commands::{
    activate_session, add_transcript_segment, advance_shutdown, attempt_device_reconnect,
    get_meeting_folder_path, get_reconnection_status, get_recording_meeting_name,
    get_recording_state, get_transcript_history, get_transcription_status, is_recording,
    is_recording_paused, meeting_summary, note_device_list_changed, note_speech_detected, observe_device, pause_recording,
    poll_audio_device_events, record_chunk_captured, record_chunk_processed, resume_recording,
    shutdown_stage, start_recording, start_recording_with_devices,
    start_recording_with_devices_and_meeting, start_recording_with_meeting_name, stop_recording,
    check_reconnect_request, get_auto_save, get_bound_device, get_last_activity, has_fatal_error,
    is_capturing, record_fatal_error, Recorder, RecordingArgs, StartAnswers, StartPlan,
    StartQuestion, StartStep,
};
use recording_session::session::CaptureOutcome;
use recording_session::shutdown::{ShutdownEvent, ShutdownStage};
use recording_session::transcript::TranscriptUpdate;

fn ready() -> StartAnswers {
    StartAnswers {
        model: Some(Ok(())),
        microphone: Some(Ok(11)),
        system_audio: Some(Ok(22)),
        auto_save: Some(Ok(false)),
        time_stamp: Some("2025-10-03_08-25-23".to_string()),
    }
}

fn nothing_asked() -> StartAnswers {
    StartAnswers { model: None, microphone: None, system_audio: None, auto_save: None, time_stamp: None }
}

fn planned(step: StartStep) -> StartPlan {
    match step {
        StartStep::Ready(plan) => plan,
        _ => panic!("expected a plan"),
    }
}

fn refusal(step: StartStep) -> RecordingError {
    match step {
        StartStep::Refuse(e) => e,
        _ => panic!("expected a refusal"),
    }
}

fn question(step: StartStep) -> StartQuestion {
    match step {
        StartStep::Ask(q) => q,
        _ => panic!("expected a question"),
    }
}

fn capture_ok() -> CaptureOutcome {
    CaptureOutcome::Started {
        default_microphone: Some(AudioDevice { name: "Built-in Microphone".to_string(), handle: 1 }),
        default_system_audio: Some(AudioDevice { name: "Loopback".to_string(), handle: 2 }),
        meeting_folder: Some("/meetings/standup".to_string()),
    }
}

fn plan(name: &str) -> StartPlan {
    StartPlan {
        microphone: None,
        system_audio: None,
        meeting_name: name.to_string(),
        auto_save: true,
    }
}

fn started(now: u64) -> Recorder {
    let mut recorder = Recorder::new();
    assert!(activate_session(&mut recorder, plan("standup"), capture_ok(), now).is_ok());
    recorder
}

fn update(sequence_id: u64) -> TranscriptUpdate {
    TranscriptUpdate {
        text: format!("text {}", sequence_id),
        timestamp: format!("10:00:0{}", sequence_id),
        sequence_id,
        audio_start_time: sequence_id * 1000,
        audio_end_time: sequence_id * 1000 + 900,
        duration: 900,
        confidence: 875,
    }
}

fn args() -> RecordingArgs {
    RecordingArgs { save_path: "/tmp/recording.wav".to_string() }
}

fn is_error(result: Result<(), RecordingError>, text: &str) -> bool {
    match result {
        Err(e) => e.message() == text,
        Ok(()) => false,
    }
}

#[test]
fn start_is_refused_while_a_session_is_active() {
    let mut recorder = started(0);
    assert!(is_recording(&recorder));
    let again = start_recording_with_devices_and_meeting(
        &recorder,
        Some("USB Mic".to_string()),
        None,
        Some("second".to_string()),
        &ready(),
    );
    assert!(matches!(refusal(again), RecordingError::AlreadyActive));
    // refused before anything is asked
    let again = start_recording(&recorder, &nothing_asked());
    assert!(matches!(refusal(again), RecordingError::AlreadyActive));
    let again = activate_session(&mut recorder, plan("second"), capture_ok(), 5);
    assert!(matches!(again, Err(RecordingError::AlreadyActive)));
    assert_eq!(get_recording_meeting_name(&recorder), Some("standup".to_string()));
    // still refused while the shutdown is under way
    assert_eq!(stop_recording(&mut recorder, args()), Some(ShutdownStage::StoppingAudio));
    assert!(matches!(refusal(start_recording(&recorder, &ready())), RecordingError::AlreadyActive));
}

#[test]
fn start_is_possible_again_after_a_completed_stop() {
    let mut recorder = started(0);
    stop_recording(&mut recorder, args());
    assert!(advance_shutdown(&mut recorder, ShutdownEvent::StreamsHalted(Ok(()))).is_ok());
    assert!(advance_shutdown(&mut recorder, ShutdownEvent::WorkersFinished).is_ok());
    assert!(advance_shutdown(&mut recorder, ShutdownEvent::ModelUnloaded(true)).is_ok());
    assert!(advance_shutdown(&mut recorder, ShutdownEvent::RecordingSaved(Ok(()))).is_ok());
    assert!(!is_recording(&recorder));
    let next = planned(start_recording(&recorder, &ready()));
    assert!(activate_session(&mut recorder, next, capture_ok(), 100).is_ok());
    assert!(is_recording(&recorder));
}

#[test]
fn stop_waits_until_every_captured_chunk_is_transcribed() {
    let mut recorder = started(0);
    for _ in 0..3 {
        assert!(record_chunk_captured(&mut recorder));
    }
    assert!(record_chunk_processed(&mut recorder, 10));
    assert!(record_chunk_processed(&mut recorder, 20));
    assert_eq!(stop_recording(&mut recorder, args()), Some(ShutdownStage::StoppingAudio));
    let step = advance_shutdown(&mut recorder, ShutdownEvent::StreamsHalted(Ok(()))).ok().unwrap();
    assert_eq!(step.stage, ShutdownStage::ProcessingTranscripts);
    // no chunk is captured once the streams are stopped
    assert!(!record_chunk_captured(&mut recorder));
    // one chunk is still pending: the drain goes on
    let step = advance_shutdown(&mut recorder, ShutdownEvent::WorkersFinished).ok().unwrap();
    assert_eq!(step.stage, ShutdownStage::ProcessingTranscripts);
    assert_eq!(shutdown_stage(&recorder), Some(ShutdownStage::ProcessingTranscripts));
    assert!(is_recording(&recorder));
    assert!(record_chunk_processed(&mut recorder, 30));
    assert!(!record_chunk_processed(&mut recorder, 31));
    let step = advance_shutdown(&mut recorder, ShutdownEvent::WorkersFinished).ok().unwrap();
    assert_eq!(step.stage, ShutdownStage::UnloadingModel);
    let step = advance_shutdown(&mut recorder, ShutdownEvent::ModelUnloaded(false)).ok().unwrap();
    assert_eq!(step.stage, ShutdownStage::Finalizing);
    let step = advance_shutdown(&mut recorder, ShutdownEvent::RecordingSaved(Ok(()))).ok().unwrap();
    assert_eq!(step.stage, ShutdownStage::Complete);
    let finished = step.finished.unwrap();
    assert_eq!(finished.chunks_captured, 3);
    assert_eq!(finished.chunks_processed, 3);
    assert!(finished.save_error.is_none());
    assert!(!is_recording(&recorder));
    assert_eq!(shutdown_stage(&recorder), None);
}

#[test]
fn durations_add_up_after_pause_cycles() {
    let mut recorder = started(1_000);
    assert!(pause_recording(&mut recorder, 3_000).is_ok());
    assert!(resume_recording(&mut recorder, 4_500).is_ok());
    assert!(pause_recording(&mut recorder, 6_000).is_ok());
    let paused = get_recording_state(&recorder, 7_000);
    assert_eq!(paused.recording_duration, Some(6_000));
    assert_eq!(paused.total_pause_duration, 1_500);
    assert_eq!(paused.active_duration, Some(4_500));
    assert_eq!(paused.current_pause_duration, Some(1_000));
    assert!(paused.is_paused);
    assert!(!paused.is_active);
    assert!(resume_recording(&mut recorder, 8_000).is_ok());
    let state = get_recording_state(&recorder, 9_000);
    assert_eq!(state.recording_duration, Some(8_000));
    assert_eq!(state.total_pause_duration, 3_500);
    assert_eq!(state.active_duration, Some(4_500));
    assert_eq!(state.current_pause_duration, None);
    assert_eq!(
        state.active_duration.unwrap() + state.total_pause_duration,
        state.recording_duration.unwrap()
    );
}

#[test]
fn a_clock_that_runs_back_is_held_at_the_latest_instant() {
    let mut recorder = started(5_000);
    assert!(pause_recording(&mut recorder, 9_000).is_ok());
    assert!(resume_recording(&mut recorder, 7_000).is_ok());
    let state = get_recording_state(&recorder, 2_000);
    assert_eq!(state.recording_duration, Some(4_000));
    assert_eq!(state.total_pause_duration, 0);
    assert_eq!(state.active_duration, Some(4_000));
}

#[test]
fn pausing_twice_and_resuming_unpaused_are_refused() {
    let mut recorder = started(0);
    assert!(is_error(resume_recording(&mut recorder, 1), "Recording is not paused"));
    assert!(matches!(resume_recording(&mut recorder, 1), Err(RecordingError::NotPaused)));
    assert!(pause_recording(&mut recorder, 2).is_ok());
    assert!(is_recording_paused(&recorder));
    assert!(matches!(pause_recording(&mut recorder, 3), Err(RecordingError::AlreadyPaused)));
    assert!(resume_recording(&mut recorder, 4).is_ok());
    assert!(!is_recording_paused(&recorder));
    assert!(matches!(resume_recording(&mut recorder, 5), Err(RecordingError::NotPaused)));
    assert_eq!(get_recording_state(&recorder, 6).total_pause_duration, 2);
}

#[test]
fn pause_and_resume_need_a_session() {
    let mut recorder = Recorder::new();
    assert!(matches!(pause_recording(&mut recorder, 1), Err(RecordingError::NotRecording)));
    // without a session nothing is paused
    assert!(matches!(resume_recording(&mut recorder, 1), Err(RecordingError::NotPaused)));
    assert!(!is_recording(&recorder));
    assert!(!is_recording_paused(&recorder));
    let mut recorder = started(0);
    stop_recording(&mut recorder, args());
    assert!(advance_shutdown(&mut recorder, ShutdownEvent::StreamsHalted(Ok(()))).is_ok());
    assert!(matches!(pause_recording(&mut recorder, 1), Err(RecordingError::NotRecording)));
    assert!(matches!(resume_recording(&mut recorder, 2), Err(RecordingError::NotPaused)));
}

#[test]
fn losing_one_device_spares_the_other_and_reconnect_restores_it() {
    let mut recorder = started(0);
    assert!(observe_device(&mut recorder, DeviceMonitorType::Microphone, false));
    // a second look at the absent device reports nothing new
    assert!(!observe_device(&mut recorder, DeviceMonitorType::Microphone, false));
    assert!(!observe_device(&mut recorder, DeviceMonitorType::SystemAudio, true));
    let status = get_reconnection_status(&recorder);
    assert!(!status.is_reconnecting);
    let info = status.disconnected_device.unwrap();
    assert_eq!(info.name, "Built-in Microphone");
    assert_eq!(info.device_type, "Microphone");

    let event = poll_audio_device_events(&mut recorder).unwrap();
    match event {
        DeviceEventResponse::DeviceDisconnected { device_name, device_type } => {
            assert_eq!(device_name, "Built-in Microphone");
            assert_eq!(device_type, "Microphone");
        }
        _ => panic!("expected a disconnect"),
    }
    assert!(get_reconnection_status(&recorder).is_reconnecting);
    assert!(poll_audio_device_events(&mut recorder).is_none());

    // the system-audio role was never absent
    let other = attempt_device_reconnect(
        &mut recorder,
        "Loopback".to_string(),
        "SystemAudio".to_string(),
        Some(2),
    );
    assert!(matches!(
        other,
        Err(RecordingError::NotDisconnected { role: DeviceMonitorType::SystemAudio })
    ));

    // still unavailable: a negative answer, not an error
    let retry = attempt_device_reconnect(
        &mut recorder,
        "Built-in Microphone".to_string(),
        "Microphone".to_string(),
        None,
    );
    assert!(matches!(retry, Ok(false)));
    assert!(get_reconnection_status(&recorder).is_reconnecting);

    let retry = attempt_device_reconnect(
        &mut recorder,
        "Built-in Microphone".to_string(),
        "Microphone".to_string(),
        Some(77),
    );
    assert!(matches!(retry, Ok(true)));
    let status = get_reconnection_status(&recorder);
    assert!(!status.is_reconnecting);
    assert!(status.disconnected_device.is_none());
    match poll_audio_device_events(&mut recorder).unwrap() {
        DeviceEventResponse::DeviceReconnected { device_name, device_type } => {
            assert_eq!(device_name, "Built-in Microphone");
            assert_eq!(device_type, "Microphone");
        }
        _ => panic!("expected a reconnect"),
    }
    assert!(poll_audio_device_events(&mut recorder).is_none());
}

#[test]
fn reconnect_is_refused_for_unknown_roles_and_without_a_session() {
    let mut recorder = Recorder::new();
    let r = attempt_device_reconnect(&mut recorder, "x".to_string(), "Speaker".to_string(), None);
    match r {
        Err(e) => {
            assert!(matches!(e, RecordingError::InvalidDeviceType { .. }));
            assert_eq!(e.message(), "Invalid device type: Speaker");
        }
        Ok(_) => panic!("expected a refusal"),
    }
    let r =
        attempt_device_reconnect(&mut recorder, "x".to_string(), "Microphone".to_string(), Some(1));
    match r {
        Err(e) => {
            assert!(matches!(e, RecordingError::RecordingNotActive));
            assert_eq!(e.message(), "Recording not active");
        }
        Ok(_) => panic!("expected a refusal"),
    }
    let r = attempt_device_reconnect(&mut recorder, "x".to_string(), "SystemAudio".to_string(), None);
    assert!(matches!(r, Err(RecordingError::RecordingNotActive)));
    // the request is judged before any device is looked up
    assert!(matches!(
        check_reconnect_request(&recorder, "Speaker"),
        Err(RecordingError::InvalidDeviceType { .. })
    ));
    assert!(matches!(
        check_reconnect_request(&recorder, "Microphone"),
        Err(RecordingError::RecordingNotActive)
    ));
    let active = started(0);
    assert!(matches!(
        check_reconnect_request(&active, "SystemAudio"),
        Ok(DeviceMonitorType::SystemAudio)
    ));
    assert!(matches!(
        check_reconnect_request(&active, "systemaudio"),
        Err(RecordingError::InvalidDeviceType { .. })
    ));
    let status = get_reconnection_status(&recorder);
    assert!(!status.is_reconnecting);
    assert!(status.disconnected_device.is_none());
    assert!(poll_audio_device_events(&mut recorder).is_none());
}

#[test]
fn device_events_are_polled_in_emission_order_and_once() {
    let mut recorder = started(0);
    note_device_list_changed(&mut recorder);
    assert!(observe_device(&mut recorder, DeviceMonitorType::SystemAudio, false));
    assert!(observe_device(&mut recorder, DeviceMonitorType::Microphone, false));
    note_device_list_changed(&mut recorder);
    assert!(matches!(
        poll_audio_device_events(&mut recorder),
        Some(DeviceEventResponse::DeviceListChanged)
    ));
    match poll_audio_device_events(&mut recorder) {
        Some(DeviceEventResponse::DeviceDisconnected { device_name, device_type }) => {
            assert_eq!(device_name, "Loopback");
            assert_eq!(device_type, "SystemAudio");
        }
        _ => panic!("expected the system-audio disconnect"),
    }
    match poll_audio_device_events(&mut recorder) {
        Some(DeviceEventResponse::DeviceDisconnected { device_name, device_type }) => {
            assert_eq!(device_name, "Built-in Microphone");
            assert_eq!(device_type, "Microphone");
        }
        _ => panic!("expected the microphone disconnect"),
    }
    assert!(matches!(
        poll_audio_device_events(&mut recorder),
        Some(DeviceEventResponse::DeviceListChanged)
    ));
    assert!(poll_audio_device_events(&mut recorder).is_none());
    assert!(poll_audio_device_events(&mut recorder).is_none());
    // with both roles absent the microphone is the one reported
    let status = get_reconnection_status(&recorder);
    assert!(status.is_reconnecting);
    assert_eq!(status.disconnected_device.unwrap().device_type, "Microphone");
}

#[test]
fn five_chunks_give_five_segments_in_order() {
    let mut recorder = Recorder::new();
    let defaults = planned(start_recording(&recorder, &ready()));
    assert!(defaults.microphone.is_none());
    assert!(defaults.system_audio.is_none());
    assert!(activate_session(&mut recorder, defaults, capture_ok(), 0).is_ok());
    for id in 0..5u64 {
        assert!(record_chunk_captured(&mut recorder));
        assert!(add_transcript_segment(&mut recorder, update(id)));
        assert!(record_chunk_processed(&mut recorder, id));
    }
    assert_eq!(get_transcript_history(&recorder).len(), 5);
    stop_recording(&mut recorder, args());
    assert!(advance_shutdown(&mut recorder, ShutdownEvent::StreamsHalted(Ok(()))).is_ok());
    assert!(advance_shutdown(&mut recorder, ShutdownEvent::WorkersFinished).is_ok());
    assert!(advance_shutdown(&mut recorder, ShutdownEvent::ModelUnloaded(true)).is_ok());
    let step = advance_shutdown(&mut recorder, ShutdownEvent::RecordingSaved(Ok(()))).ok().unwrap();
    let finished = step.finished.unwrap();
    let ids: Vec<String> = finished.segments.iter().map(|s| s.id.clone()).collect();
    assert_eq!(ids, vec!["seg_0", "seg_1", "seg_2", "seg_3", "seg_4"]);
    let sequence: Vec<u64> = finished.segments.iter().map(|s| s.sequence_id).collect();
    assert_eq!(sequence, vec![0, 1, 2, 3, 4]);
    assert_eq!(finished.segments[3].text, "text 3");
    assert_eq!(finished.segments[3].display_time, "10:00:03");
    assert_eq!(finished.segments[3].audio_start_time, 3000);
    assert_eq!(finished.segments[3].audio_end_time, 3900);
    assert_eq!(finished.segments[3].duration, 900);
    assert_eq!(finished.segments[3].confidence, 875);
    assert_eq!(finished.folder_path, Some("/meetings/standup".to_string()));
    assert_eq!(finished.meeting_name.is_some(), true);
    assert_eq!(finished.chunks_processed, 5);
    assert!(get_transcript_history(&recorder).is_empty());
}

#[test]
fn a_segment_offered_twice_is_kept_once() {
    let mut recorder = started(0);
    assert!(add_transcript_segment(&mut recorder, update(7)));
    assert!(add_transcript_segment(&mut recorder, update(3)));
    assert!(!add_transcript_segment(&mut recorder, update(7)));
    let history = get_transcript_history(&recorder);
    assert_eq!(history.len(), 2);
    assert_eq!(history[0].id, "seg_7");
    assert_eq!(history[1].id, "seg_3");
    let mut idle = Recorder::new();
    assert!(!add_transcript_segment(&mut idle, update(1)));
    assert!(get_transcript_history(&idle).is_empty());
}

#[test]
fn pause_at_ten_resume_at_fifteen_stop_at_twenty() {
    let mut recorder = started(0);
    assert!(pause_recording(&mut recorder, 10_000).is_ok());
    assert!(resume_recording(&mut recorder, 15_000).is_ok());
    assert_eq!(stop_recording(&mut recorder, args()), Some(ShutdownStage::StoppingAudio));
    let state = get_recording_state(&recorder, 20_000);
    assert_eq!(state.total_pause_duration, 5_000);
    assert_eq!(state.active_duration, Some(15_000));
    assert_eq!(state.recording_duration, Some(20_000));
}

#[test]
fn start_without_a_model_leaves_the_recorder_idle() {
    let recorder = Recorder::new();
    let mut answers = nothing_asked();
    let first = start_recording_with_meeting_name(&recorder, Some("demo".to_string()), &answers);
    assert_eq!(question(first), StartQuestion::ModelReady);
    answers.model = Some(Err("No transcription model downloaded".to_string()));
    let refused = start_recording_with_meeting_name(&recorder, Some("demo".to_string()), &answers);
    let e = refusal(refused);
    assert!(e.is_actionable());
    assert_eq!(e.message(), "No transcription model downloaded");
    assert!(matches!(e, RecordingError::ModelNotReady { .. }));
    assert!(!is_recording(&recorder));
    assert!(!is_recording_paused(&recorder));
    assert_eq!(get_meeting_folder_path(&recorder), None);
    assert_eq!(get_recording_meeting_name(&recorder), None);
    let state = get_recording_state(&recorder, 50);
    assert!(!state.is_recording && !state.is_paused && !state.is_active);
    assert_eq!(state.recording_duration, None);
    assert_eq!(state.active_duration, None);
    assert_eq!(state.total_pause_duration, 0);
    assert_eq!(state.current_pause_duration, None);
    let status = get_transcription_status(&recorder);
    assert_eq!(status.chunks_in_queue, 0);
    assert!(!status.is_processing);
    assert_eq!(status.last_activity_ms, 0);
}

#[test]
fn named_devices_are_planned_and_bad_names_refused() {
    let recorder = Recorder::new();
    let plan = planned(start_recording_with_devices_and_meeting(
        &recorder,
        Some("USB Mic".to_string()),
        None,
        Some("review".to_string()),
        &StartAnswers {
            model: Some(Ok(())),
            microphone: Some(Ok(5)),
            system_audio: None,
            auto_save: Some(Err("no preferences".to_string())),
            time_stamp: None,
        },
    ));
    let mic = plan.microphone.unwrap();
    assert_eq!(mic.name, "USB Mic");
    assert_eq!(mic.handle, 5);
    assert!(plan.system_audio.is_none());
    assert_eq!(plan.meeting_name, "review");
    // preferences that cannot be loaded mean auto-save
    assert!(plan.auto_save);

    let refused = start_recording_with_devices(
        &recorder,
        Some("Ghost Mic".to_string()),
        Some("Ghost Out".to_string()),
        &StartAnswers {
            model: Some(Ok(())),
            microphone: Some(Err("no such device".to_string())),
            system_audio: Some(Err("no such device either".to_string())),
            auto_save: Some(Ok(true)),
            time_stamp: None,
        },
    );
    let e = refusal(refused);
    assert_eq!(e.message(), "Invalid microphone device 'Ghost Mic': no such device");
    assert!(!e.is_actionable());
    let refused = start_recording_with_devices(
        &recorder,
        Some("USB Mic".to_string()),
        Some("Ghost Out".to_string()),
        &StartAnswers {
            model: Some(Ok(())),
            microphone: Some(Ok(5)),
            system_audio: Some(Err("no such device either".to_string())),
            auto_save: None,
            time_stamp: None,
        },
    );
    assert_eq!(
        refusal(refused).message(),
        "Invalid system device 'Ghost Out': no such device either"
    );
}

#[test]
fn a_start_asks_its_questions_in_order() {
    let recorder = Recorder::new();
    let mic = || Some("USB Mic".to_string());
    let out = || Some("Loopback".to_string());
    let step = |answers: &StartAnswers| {
        start_recording_with_devices_and_meeting(&recorder, mic(), out(), None, answers)
    };
    let mut answers = nothing_asked();
    assert_eq!(question(step(&answers)), StartQuestion::ModelReady);
    answers.model = Some(Ok(()));
    assert_eq!(question(step(&answers)), StartQuestion::MicrophoneLookup);
    answers.microphone = Some(Ok(5));
    assert_eq!(question(step(&answers)), StartQuestion::SystemAudioLookup);
    answers.system_audio = Some(Ok(6));
    assert_eq!(question(step(&answers)), StartQuestion::AutoSave);
    answers.auto_save = Some(Ok(false));
    assert_eq!(question(step(&answers)), StartQuestion::TimeStamp);
    answers.time_stamp = Some("2025-10-03_08-25-23".to_string());
    let plan = planned(step(&answers));
    assert_eq!(plan.meeting_name, "Meeting 2025-10-03_08-25-23");
    assert_eq!(plan.microphone.unwrap().handle, 5);
    assert_eq!(plan.system_audio.unwrap().handle, 6);
    assert!(!plan.auto_save);

    // without named devices no lookup is asked for, and with a name no time stamp
    let mut answers = nothing_asked();
    answers.model = Some(Ok(()));
    assert_eq!(question(start_recording(&recorder, &answers)), StartQuestion::AutoSave);
    answers.auto_save = Some(Ok(true));
    assert_eq!(question(start_recording(&recorder, &answers)), StartQuestion::TimeStamp);
    let named =
        start_recording_with_meeting_name(&recorder, Some("retro".to_string()), &answers);
    assert_eq!(planned(named).meeting_name, "retro");
}

#[test]
fn a_generated_meeting_name_carries_the_time_stamp() {
    let recorder = Recorder::new();
    let plan = planned(start_recording(&recorder, &ready()));
    assert!(!plan.auto_save);
    assert_eq!(plan.meeting_name, "Meeting 2025-10-03_08-25-23");
    let plan = planned(start_recording_with_devices(&recorder, None, None, &ready()));
    assert_eq!(plan.meeting_name, "Meeting 2025-10-03_08-25-23");
}

#[test]
fn a_failed_capture_start_leaves_no_session() {
    let mut recorder = Recorder::new();
    let r = activate_session(
        &mut recorder,
        plan("standup"),
        CaptureOutcome::Failed { detail: "no input device".to_string() },
        0,
    );
    assert!(is_error(r, "Failed to start recording: no input device"));
    assert!(!is_recording(&recorder));
    assert_eq!(stop_recording(&mut recorder, args()), None);
}

#[test]
fn chosen_devices_are_bound_and_defaults_fill_the_rest() {
    let mut recorder = Recorder::new();
    let chosen = StartPlan {
        microphone: Some(AudioDevice { name: "USB Mic".to_string(), handle: 5 }),
        system_audio: None,
        meeting_name: "review".to_string(),
        auto_save: false,
    };
    assert!(activate_session(&mut recorder, chosen, capture_ok(), 0).is_ok());
    assert!(observe_device(&mut recorder, DeviceMonitorType::Microphone, false));
    assert_eq!(get_reconnection_status(&recorder).disconnected_device.unwrap().name, "USB Mic");
    assert!(observe_device(&mut recorder, DeviceMonitorType::SystemAudio, false));
    assert!(matches!(
        attempt_device_reconnect(
            &mut recorder,
            "USB Mic".to_string(),
            "Microphone".to_string(),
            Some(6)
        ),
        Ok(true)
    ));
    let info = get_reconnection_status(&recorder).disconnected_device.unwrap();
    assert_eq!(info.name, "Loopback");
    assert_eq!(info.device_type, "SystemAudio");
    assert_eq!(get_meeting_folder_path(&recorder), Some("/meetings/standup".to_string()));
    assert_eq!(get_recording_meeting_name(&recorder), Some("review".to_string()));
    assert!(get_transcription_status(&recorder).is_processing);
}

#[test]
fn shutdown_steps_out_of_order_are_refused() {
    let mut recorder = Recorder::new();
    assert!(matches!(
        advance_shutdown(&mut recorder, ShutdownEvent::WorkersFinished),
        Err(RecordingError::NotRecording)
    ));
    let mut recorder = started(0);
    // no stop was asked for
    assert!(matches!(
        advance_shutdown(&mut recorder, ShutdownEvent::StreamsHalted(Ok(()))),
        Err(RecordingError::ShutdownOutOfOrder)
    ));
    stop_recording(&mut recorder, args());
    // a second stop leaves the shutdown where it is
    assert_eq!(stop_recording(&mut recorder, args()), Some(ShutdownStage::StoppingAudio));
    assert!(matches!(
        advance_shutdown(&mut recorder, ShutdownEvent::ModelUnloaded(true)),
        Err(RecordingError::ShutdownOutOfOrder)
    ));
    let failed =
        advance_shutdown(&mut recorder, ShutdownEvent::StreamsHalted(Err("busy".to_string())));
    match failed {
        Err(e) => assert_eq!(e.message(), "Failed to stop audio streams: busy"),
        Ok(_) => panic!("expected a failure"),
    }
    assert_eq!(shutdown_stage(&recorder), Some(ShutdownStage::StoppingAudio));
    assert!(is_recording(&recorder));
}

#[test]
fn a_failed_save_still_hands_out_the_transcript() {
    let mut recorder = Recorder::new();
    let capture = CaptureOutcome::Started {
        default_microphone: Some(AudioDevice { name: "m".to_string(), handle: 1 }),
        default_system_audio: Some(AudioDevice { name: "s".to_string(), handle: 2 }),
        meeting_folder: None,
    };
    assert!(activate_session(&mut recorder, plan("standup"), capture, 0).is_ok());
    assert!(add_transcript_segment(&mut recorder, update(0)));
    stop_recording(&mut recorder, args());
    assert!(advance_shutdown(&mut recorder, ShutdownEvent::StreamsHalted(Ok(()))).is_ok());
    assert!(advance_shutdown(&mut recorder, ShutdownEvent::WorkersFinished).is_ok());
    assert!(advance_shutdown(&mut recorder, ShutdownEvent::ModelUnloaded(false)).is_ok());
    let step =
        advance_shutdown(&mut recorder, ShutdownEvent::RecordingSaved(Err("disk full".to_string())))
            .ok()
            .unwrap();
    assert_eq!(step.stage, ShutdownStage::Complete);
    let finished = step.finished.unwrap();
    assert_eq!(finished.segments.len(), 1);
    assert_eq!(finished.segments[0].id, "seg_0");
    match finished.save_error {
        Some(e) => {
            assert!(matches!(e, RecordingError::PersistenceFailure { .. }));
            assert_eq!(e.message(), "disk full");
        }
        None => panic!("expected the save error"),
    }
    // without a folder neither folder nor name is reported
    assert_eq!(finished.folder_path, None);
    assert_eq!(finished.meeting_name, None);
    assert!(!is_recording(&recorder));
}

#[test]
fn speech_is_announced_once_per_session() {
    let mut recorder = Recorder::new();
    assert!(!note_speech_detected(&mut recorder));
    assert!(activate_session(&mut recorder, plan("one"), capture_ok(), 0).is_ok());
    assert!(note_speech_detected(&mut recorder));
    assert!(!note_speech_detected(&mut recorder));
    stop_recording(&mut recorder, args());
    assert!(advance_shutdown(&mut recorder, ShutdownEvent::StreamsHalted(Ok(()))).is_ok());
    assert!(advance_shutdown(&mut recorder, ShutdownEvent::WorkersFinished).is_ok());
    assert!(advance_shutdown(&mut recorder, ShutdownEvent::ModelUnloaded(true)).is_ok());
    assert!(advance_shutdown(&mut recorder, ShutdownEvent::RecordingSaved(Ok(()))).is_ok());
    assert!(!note_speech_detected(&mut recorder));
    // a new start resets the latch
    assert!(activate_session(&mut recorder, plan("two"), capture_ok(), 10).is_ok());
    assert!(note_speech_detected(&mut recorder));
}

#[test]
fn the_summary_needs_a_session() {
    let mut recorder = Recorder::new();
    assert!(meeting_summary(&recorder, 5).is_none());
    assert!(activate_session(&mut recorder, plan("one"), capture_ok(), 0).is_ok());
    assert!(add_transcript_segment(&mut recorder, update(1)));
    let summary = meeting_summary(&recorder, 750).unwrap();
    assert_eq!(summary.total_duration, 750);
    assert_eq!(summary.transcript_segments_count, 1);
    assert!(!summary.had_fatal_error);
}

#[test]
fn a_session_may_have_a_single_stream() {
    let mut recorder = Recorder::new();
    let capture = CaptureOutcome::Started {
        default_microphone: None,
        default_system_audio: Some(AudioDevice { name: "Loopback".to_string(), handle: 2 }),
        meeting_folder: None,
    };
    assert!(activate_session(&mut recorder, plan("solo"), capture, 0).is_ok());
    assert!(get_bound_device(&recorder, DeviceMonitorType::Microphone).is_none());
    assert_eq!(get_bound_device(&recorder, DeviceMonitorType::SystemAudio).unwrap().handle, 2);
    assert!(!is_capturing(&recorder, DeviceMonitorType::Microphone));
    assert!(is_capturing(&recorder, DeviceMonitorType::SystemAudio));
    // an unbound role is never lost and cannot be reconnected
    assert!(!observe_device(&mut recorder, DeviceMonitorType::Microphone, false));
    assert!(poll_audio_device_events(&mut recorder).is_none());
    assert!(matches!(
        attempt_device_reconnect(&mut recorder, "m".to_string(), "Microphone".to_string(), Some(9)),
        Err(RecordingError::NotDisconnected { role: DeviceMonitorType::Microphone })
    ));
    let summary = meeting_summary(&recorder, 10).unwrap();
    assert_eq!(summary.microphone_device_type.label(), "Unknown");
    assert_eq!(summary.system_audio_device_type.label(), "Wired");
}

#[test]
fn the_recorder_reaches_the_session_flags() {
    let mut recorder = Recorder::new();
    assert!(!record_fatal_error(&mut recorder));
    assert!(!has_fatal_error(&recorder));
    assert_eq!(get_auto_save(&recorder), None);
    assert_eq!(get_last_activity(&recorder), None);
    assert!(get_bound_device(&recorder, DeviceMonitorType::Microphone).is_none());
    assert!(!is_capturing(&recorder, DeviceMonitorType::Microphone));
    assert!(activate_session(&mut recorder, plan("one"), capture_ok(), 40).is_ok());
    assert_eq!(get_auto_save(&recorder), Some(true));
    assert_eq!(get_last_activity(&recorder), Some(40));
    assert!(!has_fatal_error(&recorder));
    assert!(record_fatal_error(&mut recorder));
    assert!(has_fatal_error(&recorder));
    assert!(meeting_summary(&recorder, 50).unwrap().had_fatal_error);
    assert_eq!(
        get_bound_device(&recorder, DeviceMonitorType::Microphone).unwrap().name,
        "Built-in Microphone"
    );
    assert!(record_chunk_captured(&mut recorder));
    assert!(record_chunk_processed(&mut recorder, 60));
    assert_eq!(get_last_activity(&recorder), Some(60));
}
