use vstd::prelude::*;
use crate::job::{CompileJob, empty_job};

verus! {

/// Body of a `Ping` message.
#[derive(Debug)]
pub struct Ping {}

impl Ping {
    /// A message with zeroed integers and empty strings.
    pub fn new() -> (r: Ping)
    {
        Ping {}
    }
}

/// Body of an `End` message.
#[derive(Debug)]
pub struct End {}

impl End {
    /// A message with zeroed integers and empty strings.
    pub fn new() -> (r: End)
    {
        End {}
    }
}

/// Body of a `GetNativeEnv` message.
#[derive(Debug)]
pub struct GetNativeEnv {
    pub compiler: String,
}

impl GetNativeEnv {
    /// A message with zeroed integers and empty strings.
    pub fn new() -> (r: GetNativeEnv)
        ensures
            r.compiler@.len() == 0,
    {
        GetNativeEnv { compiler: String::new() }
    }
}

/// Body of a `NativeEnv` message.
#[derive(Debug)]
pub struct NativeEnv {
    pub version: String,
}

impl NativeEnv {
    /// A message with zeroed integers and empty strings.
    pub fn new() -> (r: NativeEnv)
        ensures
            r.version@.len() == 0,
    {
        NativeEnv { version: String::new() }
    }
}

/// Body of a `GetCS` message.
#[derive(Debug)]
pub struct GetCS {
    pub job: CompileJob,
}

impl GetCS {
    /// A message with zeroed integers and empty strings.
    pub fn new() -> (r: GetCS)
        ensures
            r.job@ == empty_job(),
    {
        GetCS { job: CompileJob::new() }
    }
}

/// Body of a `UseCS` message.
#[derive(Debug)]
pub struct UseCS {
    pub job_id: u32,
    pub host_id: u32,
    pub hostname: String,
    pub port: u32,
}

impl UseCS {
    /// A message with zeroed integers and empty strings.
    pub fn new() -> (r: UseCS)
        ensures
            r.job_id == 0,
            r.host_id == 0,
            r.hostname@.len() == 0,
            r.port == 0,
    {
        UseCS { job_id: 0, host_id: 0, hostname: String::new(), port: 0 }
    }
}

/// Body of a `CompileFile` message.
#[derive(Debug)]
pub struct CompileFile {
    pub job: CompileJob,
}

impl CompileFile {
    /// A message with zeroed integers and empty strings.
    pub fn new() -> (r: CompileFile)
        ensures
            r.job@ == empty_job(),
    {
        CompileFile { job: CompileJob::new() }
    }
}

/// Body of a `FileChunk` message.
#[derive(Debug)]
pub struct FileChunk {
    pub data: Vec<u8>,
}

impl FileChunk {
    /// A message with zeroed integers and empty strings.
    pub fn new() -> (r: FileChunk)
        ensures
            r.data@.len() == 0,
    {
        FileChunk { data: Vec::new() }
    }
}

/// Body of a `CompileResult` message.
#[derive(Debug)]
pub struct CompileResult {
    pub status: u32,
    pub out: String,
    pub err: String,
}

impl CompileResult {
    /// A message with zeroed integers and empty strings.
    pub fn new() -> (r: CompileResult)
        ensures
            r.status == 0,
            r.out@.len() == 0,
            r.err@.len() == 0,
    {
        CompileResult { status: 0, out: String::new(), err: String::new() }
    }
}

/// Body of a `JobBegin` message.
#[derive(Debug)]
pub struct JobBegin {
    pub job_id: u32,
    pub start_time: u32,
}

impl JobBegin {
    /// A message with zeroed integers and empty strings.
    pub fn new() -> (r: JobBegin)
        ensures
            r.job_id == 0,
            r.start_time == 0,
    {
        JobBegin { job_id: 0, start_time: 0 }
    }
}

/// Body of a `JobDone` message.
#[derive(Debug)]
pub struct JobDone {
    pub job_id: u32,
    pub exit_code: u32,
}

impl JobDone {
    /// A message with zeroed integers and empty strings.
    pub fn new() -> (r: JobDone)
        ensures
            r.job_id == 0,
            r.exit_code == 0,
    {
        JobDone { job_id: 0, exit_code: 0 }
    }
}

/// Body of a `LocalJobBegin` message.
#[derive(Debug)]
pub struct LocalJobBegin {
    pub job_id: u32,
    pub filename: String,
}

impl LocalJobBegin {
    /// A message with zeroed integers and empty strings.
    pub fn new() -> (r: LocalJobBegin)
        ensures
            r.job_id == 0,
            r.filename@.len() == 0,
    {
        LocalJobBegin { job_id: 0, filename: String::new() }
    }
}

/// Body of a `LocalJobDone` message.
#[derive(Debug)]
pub struct LocalJobDone {
    pub job_id: u32,
}

impl LocalJobDone {
    /// A message with zeroed integers and empty strings.
    pub fn new() -> (r: LocalJobDone)
        ensures
            r.job_id == 0,
    {
        LocalJobDone { job_id: 0 }
    }
}

/// Body of a `Login` message.
#[derive(Debug)]
pub struct Login {
    pub port: u32,
    pub nodename: String,
}

impl Login {
    /// A message with zeroed integers and empty strings.
    pub fn new() -> (r: Login)
        ensures
            r.port == 0,
            r.nodename@.len() == 0,
    {
        Login { port: 0, nodename: String::new() }
    }
}

/// Body of a `ConfCS` message.
#[derive(Debug)]
pub struct ConfCS {
    pub max_scheduler_pong: u32,
    pub max_scheduler_ping: u32,
}

impl ConfCS {
    /// A message with zeroed integers and empty strings.
    pub fn new() -> (r: ConfCS)
        ensures
            r.max_scheduler_pong == 0,
            r.max_scheduler_ping == 0,
    {
        ConfCS { max_scheduler_pong: 0, max_scheduler_ping: 0 }
    }
}

/// Body of a `Stats` message.
#[derive(Debug)]
pub struct Stats {
    pub load: u32,
}

impl Stats {
    /// A message with zeroed integers and empty strings.
    pub fn new() -> (r: Stats)
        ensures
            r.load == 0,
    {
        Stats { load: 0 }
    }
}

/// Body of an `EnvTransfer` message.
#[derive(Debug)]
pub struct EnvTransfer {
    pub name: String,
    pub target: String,
}

impl EnvTransfer {
    /// A message with zeroed integers and empty strings.
    pub fn new() -> (r: EnvTransfer)
        ensures
            r.name@.len() == 0,
            r.target@.len() == 0,
    {
        EnvTransfer { name: String::new(), target: String::new() }
    }
}

/// Body of an `InternalStatus` message.
#[derive(Debug)]
pub struct InternalStatus {}

impl InternalStatus {
    /// A message with zeroed integers and empty strings.
    pub fn new() -> (r: InternalStatus)
    {
        InternalStatus {}
    }
}

/// Body of a `MonitorLogin` message.
#[derive(Debug)]
pub struct MonitorLogin {}

impl MonitorLogin {
    /// A message with zeroed integers and empty strings.
    pub fn new() -> (r: MonitorLogin)
    {
        MonitorLogin {}
    }
}

/// Body of a `MonitorGetCS` message.
#[derive(Debug)]
pub struct MonitorGetCS {
    pub job_id: u32,
    pub client_id: u32,
    pub filename: String,
}

impl MonitorGetCS {
    /// A message with zeroed integers and empty strings.
    pub fn new() -> (r: MonitorGetCS)
        ensures
            r.job_id == 0,
            r.client_id == 0,
            r.filename@.len() == 0,
    {
        MonitorGetCS { job_id: 0, client_id: 0, filename: String::new() }
    }
}

/// Body of a `MonitorJobBegin` message.
#[derive(Debug)]
pub struct MonitorJobBegin {
    pub job_id: u32,
    pub host_id: u32,
}

impl MonitorJobBegin {
    /// A message with zeroed integers and empty strings.
    pub fn new() -> (r: MonitorJobBegin)
        ensures
            r.job_id == 0,
            r.host_id == 0,
    {
        MonitorJobBegin { job_id: 0, host_id: 0 }
    }
}

/// Body of a `MonitorJobDone` message.
#[derive(Debug)]
pub struct MonitorJobDone {
    pub job_id: u32,
}

impl MonitorJobDone {
    /// A message with zeroed integers and empty strings.
    pub fn new() -> (r: MonitorJobDone)
        ensures
            r.job_id == 0,
    {
        MonitorJobDone { job_id: 0 }
    }

    pub fn job_id(&self) -> (r: u32)
        ensures
            r == self.job_id,
    {
        self.job_id
    }
}

/// Body of a `MonitorLocalJobBegin` message.
#[derive(Debug)]
pub struct MonitorLocalJobBegin {
    pub job_id: u32,
    pub filename: String,
}

impl MonitorLocalJobBegin {
    /// A message with zeroed integers and empty strings.
    pub fn new() -> (r: MonitorLocalJobBegin)
        ensures
            r.job_id == 0,
            r.filename@.len() == 0,
    {
        MonitorLocalJobBegin { job_id: 0, filename: String::new() }
    }

    pub fn job_id(&self) -> (r: u32)
        ensures
            r == self.job_id,
    {
        self.job_id
    }

    pub fn set_job_id(&mut self, value: u32)
        ensures
            final(self).job_id == value,
            final(self).filename@ == old(self).filename@,
    {
        self.job_id = value;
    }

    pub fn filename(&self) -> (r: String)
        ensures
            r@ == self.filename@,
    {
        self.filename.clone()
    }

    pub fn set_filename(&mut self, value: &str)
        ensures
            final(self).job_id == old(self).job_id,
            final(self).filename@ == value@,
    {
        self.filename = value.to_owned();
    }
}

/// Body of a `MonitorStats` message.
#[derive(Debug)]
pub struct MonitorStats {
    pub host_id: u32,
    pub message: String,
}

impl MonitorStats {
    /// A message with zeroed integers and empty strings.
    pub fn new() -> (r: MonitorStats)
        ensures
            r.host_id == 0,
            r.message@.len() == 0,
    {
        MonitorStats { host_id: 0, message: String::new() }
    }

    pub fn host_id(&self) -> (r: u32)
        ensures
            r == self.host_id,
    {
        self.host_id
    }

    pub fn set_host_id(&mut self, value: u32)
        ensures
            final(self).host_id == value,
            final(self).message@ == old(self).message@,
    {
        self.host_id = value;
    }

    pub fn message(&self) -> (r: String)
        ensures
            r@ == self.message@,
    {
        self.message.clone()
    }

    pub fn set_message(&mut self, value: &str)
        ensures
            final(self).host_id == old(self).host_id,
            final(self).message@ == value@,
    {
        self.message = value.to_owned();
    }
}

/// Body of a `Text` message.
#[derive(Debug)]
pub struct Text {
    pub text: String,
}

impl Text {
    /// A message with zeroed integers and empty strings.
    pub fn new() -> (r: Text)
        ensures
            r.text@.len() == 0,
    {
        Text { text: String::new() }
    }
}

/// Body of a `StatusText` message.
#[derive(Debug)]
pub struct StatusText {
    pub text: String,
}

impl StatusText {
    /// A message with zeroed integers and empty strings.
    pub fn new() -> (r: StatusText)
        ensures
            r.text@.len() == 0,
    {
        StatusText { text: String::new() }
    }
}

/// Body of a `VerifyEnv` message.
#[derive(Debug)]
pub struct VerifyEnv {
    pub target: String,
    pub environment: String,
}

impl VerifyEnv {
    /// A message with zeroed integers and empty strings.
    pub fn new() -> (r: VerifyEnv)
        ensures
            r.target@.len() == 0,
            r.environment@.len() == 0,
    {
        VerifyEnv { target: String::new(), environment: String::new() }
    }
}

/// Body of a `VerifyEnvResult` message.
#[derive(Debug)]
pub struct VerifyEnvResult {
    pub result: u32,
}

impl VerifyEnvResult {
    /// A message with zeroed integers and empty strings.
    pub fn new() -> (r: VerifyEnvResult)
        ensures
            r.result == 0,
    {
        VerifyEnvResult { result: 0 }
    }
}

/// Body of a `BlacklistHostEnv` message.
#[derive(Debug)]
pub struct BlacklistHostEnv {
    pub target: String,
    pub environment: String,
    pub hostname: String,
}

impl BlacklistHostEnv {
    /// A message with zeroed integers and empty strings.
    pub fn new() -> (r: BlacklistHostEnv)
        ensures
            r.target@.len() == 0,
            r.environment@.len() == 0,
            r.hostname@.len() == 0,
    {
        BlacklistHostEnv {
            target: String::new(),
            environment: String::new(),
            hostname: String::new(),
        }
    }
}

} // verus!