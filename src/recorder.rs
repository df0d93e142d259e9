use vstd::prelude::*;
use vstd::string::*;
use crate::wav::{encode_recording, wav_file, EncodeError, MAX_SAMPLES, SAMPLE_RATE};

verus! {

/// Where recordings go and which audio input device to capture from.
pub struct AudioRecorder {
    pub output_dir: String,
    pub device_name: String,
}

/// Which audio input device to acquire.
#[derive(Debug)]
pub enum DeviceChoice {
    /// The system's default input device.
    SystemDefault,
    /// The input device with exactly this name.
    Named(String),
}

/// A finalized recording: where it goes and the container's bytes.
pub struct FinishedRecording {
    pub path: String,
    pub contents: Vec<u8>,
}

/// The device name that selects the system default.
pub open spec fn default_device_name() -> Seq<char> {
    "default"@
}

/// The file name of a recording started at `stamp` (`YYYYMMDD_HHMMSS`).
pub open spec fn memo_name(stamp: Seq<char>) -> Seq<char> {
    "memo_"@ + stamp + ".wav"@
}

/// A file name joined under a directory, with one separator between them.
pub open spec fn join_path(dir: Seq<char>, name: Seq<char>) -> Seq<char> {
    if dir.len() == 0 || dir.last() == '/' {
        dir + name
    } else {
        dir + seq!['/'] + name
    }
}

/// Whether a device reported under `name` is the one asked for.
pub open spec fn device_matches(name: Option<String>, wanted: Seq<char>) -> bool {
    match name {
        Some(n) => n@ == wanted,
        None => false,
    }
}

/// Relies on chrono::Local::now and its `format` with `%Y%m%d_%H%M%S`: the
/// local date and time as text. It depends on the clock, so nothing is
/// promised of its value.
#[verifier::external_body]
fn local_timestamp() -> (r: String) {
    chrono::Local::now().format("%Y%m%d_%H%M%S").to_string()
}

/// The file name of a recording started at `stamp`.
pub fn memo_file_name(stamp: &str) -> (r: String)
    ensures
        r@ == memo_name(stamp@),
{
    let mut name = String::from_str("memo_");
    name.append(stamp);
    name.append(".wav");
    name
}

/// Joins a name under a directory, adding a separator unless the directory
/// is empty or already ends with one.
pub fn path_join(dir: &str, name: &str) -> (r: String)
    ensures
        r@ == join_path(dir@, name@),
{
    proof {
        reveal_strlit("/");
    }
    let mut path = String::from_str(dir);
    let n = dir.unicode_len();
    if n > 0 && dir.get_char(n - 1) != '/' {
        path.append("/");
    }
    path.append(name);
    assert("/"@ =~= seq!['/']);
    path
}

impl AudioRecorder {
    pub fn new(output_dir: String, device_name: String) -> (r: AudioRecorder)
        ensures
            r.output_dir@ == output_dir@,
            r.device_name@ == device_name@,
    {
        AudioRecorder { output_dir, device_name }
    }

    /// The device to acquire: the system default for the name `default`,
    /// otherwise the device of that name.
    pub fn device_choice(&self) -> (r: DeviceChoice)
        ensures
            self.device_name@ == default_device_name() <==> r is SystemDefault,
            r matches DeviceChoice::Named(n) ==> n@ == self.device_name@,
    {
        let sentinel = String::from_str("default");
        if self.device_name == sentinel {
            DeviceChoice::SystemDefault
        } else {
            DeviceChoice::Named(self.device_name.clone())
        }
    }

    /// The first of the enumerated devices whose name is the configured one;
    /// a device whose name cannot be read never matches.
    pub fn pick_device(&self, names: &Vec<Option<String>>) -> (r: Option<usize>)
        ensures
            r matches Some(i) ==> i < names@.len() && device_matches(names@[i as int], self.device_name@)
                && forall|j: int| 0 <= j < i ==> !device_matches(#[trigger] names@[j], self.device_name@),
            r is None ==> forall|j: int|
                0 <= j < names@.len() ==> !device_matches(#[trigger] names@[j], self.device_name@),
    {
        let mut i: usize = 0;
        while i < names.len()
            invariant
                0 <= i <= names@.len(),
                forall|j: int| 0 <= j < i ==> !device_matches(#[trigger] names@[j], self.device_name@),
            decreases names@.len() - i,
        {
            match &names[i] {
                Some(n) => {
                    if *n == self.device_name {
                        return Some(i);
                    }
                },
                None => {},
            }
            i = i + 1;
        }
        None
    }

    /// The path of a file of this name in the output directory.
    pub fn output_path(&self, file_name: &str) -> (r: String)
        ensures
            r@ == join_path(self.output_dir@, file_name@),
    {
        path_join(self.output_dir.as_str(), file_name)
    }

    /// Finalizes a drained session started at `stamp`: the container of its
    /// samples, to be written under the memo name in the output directory.
    /// An empty session gives a header-only container.
    pub fn finalize(&self, samples: &Vec<i16>, stamp: &str) -> (r: Result<FinishedRecording, EncodeError>)
        ensures
            samples@.len() <= MAX_SAMPLES ==> r is Ok,
            samples@.len() > MAX_SAMPLES ==> r matches Err(EncodeError::TooLong),
            r matches Ok(f) ==> f.path@ == join_path(self.output_dir@, memo_name(stamp@))
                && f.contents@ == wav_file(samples@, SAMPLE_RATE as nat),
    {
        match encode_recording(samples) {
            Ok(contents) => {
                let name = memo_file_name(stamp);
                let path = self.output_path(name.as_str());
                Ok(FinishedRecording { path, contents })
            },
            Err(e) => Err(e),
        }
    }

    /// Finalizes a drained session stamped with the local time now.
    pub fn finalize_now(&self, samples: &Vec<i16>) -> (r: Result<FinishedRecording, EncodeError>)
        ensures
            samples@.len() <= MAX_SAMPLES ==> r is Ok,
            samples@.len() > MAX_SAMPLES ==> r matches Err(EncodeError::TooLong),
            r matches Ok(f) ==> (exists|stamp: Seq<char>|
                f.path@ == join_path(self.output_dir@, memo_name(stamp)))
                && f.contents@ == wav_file(samples@, SAMPLE_RATE as nat),
    {
        let stamp = local_timestamp();
        self.finalize(samples, stamp.as_str())
    }
}

} // verus!
