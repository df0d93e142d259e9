use earwig::config::{Config, ConfigOverrides};
use earwig::dispatch::notification_for;
use earwig::monitor::{AttemptOutcome, InputMonitor, MonitorAction, RetryPolicy, BACKOFF_SECS};
use earwig::recorder::{memo_file_name, path_join, AudioRecorder, DeviceChoice};
use earwig::wav::MAX_SAMPLES;

fn strings(items: &[&str]) -> Vec<String> {
    items.iter().map(|s| s.to_string()).collect()
}

fn config() -> Config {
    Config {
        mouse_device: "/dev/input/event3".to_string(),
        audio_device: "default".to_string(),
        output_dir: "/home/u/memos".to_string(),
        whisper_url: "http://localhost:8080/inference".to_string(),
        ntfy_topic: "https://ntfy.sh/memos".to_string(),
    }
}

#[test]
fn monitor_retries_until_the_device_opens() {
    let k = 4;
    let mut monitor = InputMonitor::new(RetryPolicy::fixed_backoff());
    let mut opens = 1;
    for _ in 0..k {
        match monitor.on_outcome(AttemptOutcome::OpenFailed) {
            MonitorAction::RetryAfter(secs) => {
                assert_eq!(secs, BACKOFF_SECS);
                opens += 1;
            }
            other => panic!("unexpected {:?}", other),
        }
    }
    assert_eq!(monitor.on_outcome(AttemptOutcome::Opened), MonitorAction::ReadEvents);
    assert_eq!(opens, k + 1);
    assert_eq!(monitor.attempts, 5);
    assert_eq!(monitor.on_outcome(AttemptOutcome::Ended), MonitorAction::RetryAfter(5));
    assert_eq!(monitor.attempts, 5);
}

#[test]
fn bounded_policy_gives_up() {
    let policy = RetryPolicy { backoff_secs: 1, max_attempts: Some(2) };
    let mut monitor = InputMonitor::new(policy);
    assert_eq!(monitor.on_outcome(AttemptOutcome::OpenFailed), MonitorAction::RetryAfter(1));
    assert_eq!(monitor.on_outcome(AttemptOutcome::OpenFailed), MonitorAction::GiveUp);
}

#[test]
fn config_path_from_flag() {
    let args = strings(&["memo", "--config", "/etc/memo.toml"]);
    assert_eq!(Config::config_path(&args, Some("/home/u/.config".to_string())), "/etc/memo.toml");
    let args = strings(&["memo", "--config", "a.toml", "--config", "b.toml"]);
    assert_eq!(Config::config_path(&args, None), "a.toml");
}

#[test]
fn config_path_defaults() {
    let args = strings(&["memo"]);
    assert_eq!(
        Config::config_path(&args, Some("/home/u/.config".to_string())),
        "/home/u/.config/voice-memo/config.toml"
    );
    assert_eq!(Config::config_path(&args, None), "./voice-memo/config.toml");
    let args = strings(&["memo", "--config"]);
    assert_eq!(
        Config::config_path(&args, Some("/cfg/".to_string())),
        "/cfg/voice-memo/config.toml"
    );
}

#[test]
fn overrides_replace_only_present_settings() {
    let o = ConfigOverrides {
        mouse_device: None,
        audio_device: Some("hw:1,0".to_string()),
        output_dir: Some("/tmp/out".to_string()),
        whisper_url: None,
        ntfy_topic: None,
    };
    let c = config().with_overrides(o);
    assert_eq!(c.mouse_device, "/dev/input/event3");
    assert_eq!(c.audio_device, "hw:1,0");
    assert_eq!(c.output_dir, "/tmp/out");
    assert_eq!(c.whisper_url, "http://localhost:8080/inference");
    assert_eq!(c.ntfy_topic, "https://ntfy.sh/memos");
}

#[test]
fn memo_names_and_paths() {
    assert_eq!(memo_file_name("20240102_030405"), "memo_20240102_030405.wav");
    assert_eq!(path_join("/a/b", "c.wav"), "/a/b/c.wav");
    assert_eq!(path_join("/a/b/", "c.wav"), "/a/b/c.wav");
    assert_eq!(path_join("", "c.wav"), "c.wav");
    let r = AudioRecorder::new("/data".to_string(), "default".to_string());
    assert_eq!(r.output_path("x.wav"), "/data/x.wav");
}

#[test]
fn finalize_now_names_the_file_by_the_clock() {
    let r = AudioRecorder::new("/data".to_string(), "default".to_string());
    let f = r.finalize_now(&vec![1, 2, 3]).unwrap();
    assert!(f.path.starts_with("/data/memo_"));
    assert!(f.path.ends_with(".wav"));
    let stamp = &f.path["/data/memo_".len()..f.path.len() - ".wav".len()];
    assert_eq!(stamp.len(), 15);
    assert_eq!(&stamp[8..9], "_");
    assert!(stamp.chars().enumerate().all(|(i, c)| i == 8 || c.is_ascii_digit()));
    assert_eq!(f.contents.len(), 44 + 6);
}

#[test]
fn device_selection() {
    let r = AudioRecorder::new("/data".to_string(), "default".to_string());
    assert!(matches!(r.device_choice(), DeviceChoice::SystemDefault));
    let r = AudioRecorder::new("/data".to_string(), "hw:1,0".to_string());
    match r.device_choice() {
        DeviceChoice::Named(n) => assert_eq!(n, "hw:1,0"),
        DeviceChoice::SystemDefault => panic!("expected a named device"),
    }
    let names = vec![Some("pulse".to_string()), None, Some("hw:1,0".to_string()), Some("hw:1,0".to_string())];
    assert_eq!(r.pick_device(&names), Some(2));
    assert_eq!(r.pick_device(&vec![None, Some("pulse".to_string())]), None);
}

#[test]
fn notifications() {
    let ok = notification_for(Ok("buy milk".to_string()), "memo_1.wav");
    assert_eq!(ok.body, "buy milk");
    assert!(!ok.is_error);
    assert_eq!(ok.headers(), vec![("Content-Type".to_string(), "text/plain".to_string())]);
    let failed = notification_for(Err("timeout".to_string()), "memo_1.wav");
    assert_eq!(failed.body, "Recording saved: memo_1.wav\nError: timeout");
    assert!(failed.is_error);
    let h: Vec<(String, String)> = failed.headers();
    assert_eq!(h.len(), 3);
    assert_eq!(h[1], ("X-Title".to_string(), "Transcription Failed".to_string()));
    assert_eq!(h[2], ("X-Priority".to_string(), "3".to_string()));
}

#[test]
fn largest_recording_bound() {
    assert_eq!(36 + 2 * MAX_SAMPLES as u64, u32::MAX as u64 - 1);
}
