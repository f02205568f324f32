use vstd::prelude::*;
use crate::job::{CompileJob, CompileJobView, Language};
use crate::msg;
use crate::wire::{
    Field, FieldKind, FieldV, ProtocolError, conforms, encode_field, encode_fields, fields_fit,
    fields_view, parse_fields, parse_fields_at, lemma_parse_encode_fields,
};

verus! {

/// Type tag of a protocol message. `Unknown` and `Timeout` are reserved for
/// internal signalling and never stand for a message on the wire.
#[derive(Clone, Copy, Debug, PartialEq, Eq, Structural)]
pub enum MsgType {
    Unknown,
    Ping,
    End,
    Timeout,
    GetNativeEnv,
    NativeEnv,
    GetCS,
    UseCS,
    CompileFile,
    FileChunk,
    CompileResult,
    JobBegin,
    JobDone,
    JobLocalBegin,
    JobLocalDone,
    Login,
    CsConf,
    Stats,
    TransferEnv,
    GetInternals,
    MonLogin,
    MonGetCs,
    MonJobBegin,
    MonJobDone,
    MonLocalJobBegin,
    MonStats,
    Text,
    StatusText,
    VerifyEnv,
    VerifyEnvResult,
    BlacklistHostEnv,
}

/// Wire code of a message type.
pub open spec fn type_code(t: MsgType) -> u32 {
    match t {
        MsgType::Unknown => 65,
        MsgType::Ping => 66,
        MsgType::End => 67,
        MsgType::Timeout => 68,
        MsgType::GetNativeEnv => 69,
        MsgType::NativeEnv => 70,
        MsgType::GetCS => 71,
        MsgType::UseCS => 72,
        MsgType::CompileFile => 73,
        MsgType::FileChunk => 74,
        MsgType::CompileResult => 75,
        MsgType::JobBegin => 76,
        MsgType::JobDone => 77,
        MsgType::JobLocalBegin => 78,
        MsgType::JobLocalDone => 79,
        MsgType::Login => 80,
        MsgType::CsConf => 81,
        MsgType::Stats => 82,
        MsgType::TransferEnv => 83,
        MsgType::GetInternals => 84,
        MsgType::MonLogin => 85,
        MsgType::MonGetCs => 86,
        MsgType::MonJobBegin => 87,
        MsgType::MonJobDone => 88,
        MsgType::MonLocalJobBegin => 89,
        MsgType::MonStats => 90,
        MsgType::Text => 91,
        MsgType::StatusText => 92,
        MsgType::VerifyEnv => 93,
        MsgType::VerifyEnvResult => 94,
        MsgType::BlacklistHostEnv => 95,
    }
}

/// The message type that a wire code stands for, if any.
pub open spec fn type_of_code(n: u32) -> Option<MsgType> {
    if n == 65 {
        Some(MsgType::Unknown)
    } else if n == 66 {
        Some(MsgType::Ping)
    } else if n == 67 {
        Some(MsgType::End)
    } else if n == 68 {
        Some(MsgType::Timeout)
    } else if n == 69 {
        Some(MsgType::GetNativeEnv)
    } else if n == 70 {
        Some(MsgType::NativeEnv)
    } else if n == 71 {
        Some(MsgType::GetCS)
    } else if n == 72 {
        Some(MsgType::UseCS)
    } else if n == 73 {
        Some(MsgType::CompileFile)
    } else if n == 74 {
        Some(MsgType::FileChunk)
    } else if n == 75 {
        Some(MsgType::CompileResult)
    } else if n == 76 {
        Some(MsgType::JobBegin)
    } else if n == 77 {
        Some(MsgType::JobDone)
    } else if n == 78 {
        Some(MsgType::JobLocalBegin)
    } else if n == 79 {
        Some(MsgType::JobLocalDone)
    } else if n == 80 {
        Some(MsgType::Login)
    } else if n == 81 {
        Some(MsgType::CsConf)
    } else if n == 82 {
        Some(MsgType::Stats)
    } else if n == 83 {
        Some(MsgType::TransferEnv)
    } else if n == 84 {
        Some(MsgType::GetInternals)
    } else if n == 85 {
        Some(MsgType::MonLogin)
    } else if n == 86 {
        Some(MsgType::MonGetCs)
    } else if n == 87 {
        Some(MsgType::MonJobBegin)
    } else if n == 88 {
        Some(MsgType::MonJobDone)
    } else if n == 89 {
        Some(MsgType::MonLocalJobBegin)
    } else if n == 90 {
        Some(MsgType::MonStats)
    } else if n == 91 {
        Some(MsgType::Text)
    } else if n == 92 {
        Some(MsgType::StatusText)
    } else if n == 93 {
        Some(MsgType::VerifyEnv)
    } else if n == 94 {
        Some(MsgType::VerifyEnvResult)
    } else if n == 95 {
        Some(MsgType::BlacklistHostEnv)
    } else {
        None
    }
}

pub open spec fn is_reserved(t: MsgType) -> bool {
    t == MsgType::Unknown || t == MsgType::Timeout
}

/// Field shapes of the payload of each message type, in wire order.
pub open spec fn layout(t: MsgType) -> Seq<FieldKind> {
    match t {
        MsgType::Ping => Seq::empty(),
        MsgType::End => Seq::empty(),
        MsgType::GetNativeEnv => seq![FieldKind::Text],
        MsgType::NativeEnv => seq![FieldKind::Text],
        MsgType::GetCS => job_layout(),
        MsgType::UseCS => seq![FieldKind::Num, FieldKind::Num, FieldKind::Text, FieldKind::Num],
        MsgType::CompileFile => job_layout(),
        MsgType::FileChunk => seq![FieldKind::Blob],
        MsgType::CompileResult => seq![FieldKind::Num, FieldKind::Text, FieldKind::Text],
        MsgType::JobBegin => seq![FieldKind::Num, FieldKind::Num],
        MsgType::JobDone => seq![FieldKind::Num, FieldKind::Num],
        MsgType::JobLocalBegin => seq![FieldKind::Num, FieldKind::Text],
        MsgType::JobLocalDone => seq![FieldKind::Num],
        MsgType::Login => seq![FieldKind::Num, FieldKind::Text],
        MsgType::CsConf => seq![FieldKind::Num, FieldKind::Num],
        MsgType::Stats => seq![FieldKind::Num],
        MsgType::TransferEnv => seq![FieldKind::Text, FieldKind::Text],
        MsgType::GetInternals => Seq::empty(),
        MsgType::MonLogin => Seq::empty(),
        MsgType::MonGetCs => seq![FieldKind::Num, FieldKind::Num, FieldKind::Text],
        MsgType::MonJobBegin => seq![FieldKind::Num, FieldKind::Num],
        MsgType::MonJobDone => seq![FieldKind::Num],
        MsgType::MonLocalJobBegin => seq![FieldKind::Num, FieldKind::Text],
        MsgType::MonStats => seq![FieldKind::Num, FieldKind::Text],
        MsgType::Text => seq![FieldKind::Text],
        MsgType::StatusText => seq![FieldKind::Text],
        MsgType::VerifyEnv => seq![FieldKind::Text, FieldKind::Text],
        MsgType::VerifyEnvResult => seq![FieldKind::Num],
        MsgType::BlacklistHostEnv => seq![FieldKind::Text, FieldKind::Text, FieldKind::Text],
        _ => Seq::empty(),
    }
}

/// Fields of a compile job, in wire order.
pub open spec fn job_fields(j: CompileJobView) -> Seq<FieldV> {
    seq![
        FieldV::Num(j.job_id),
        FieldV::Lang(j.language),
        FieldV::Text(j.compiler_name),
        FieldV::Text(j.environment_version),
        FieldV::Text(j.input_file),
        FieldV::Text(j.output_file),
        FieldV::Text(j.target_platform),
    ]
}

impl MsgType {
    pub fn code(self) -> (r: u32)
        ensures
            r == type_code(self),
    {
        match self {
            MsgType::Unknown => 65,
            MsgType::Ping => 66,
            MsgType::End => 67,
            MsgType::Timeout => 68,
            MsgType::GetNativeEnv => 69,
            MsgType::NativeEnv => 70,
            MsgType::GetCS => 71,
            MsgType::UseCS => 72,
            MsgType::CompileFile => 73,
            MsgType::FileChunk => 74,
            MsgType::CompileResult => 75,
            MsgType::JobBegin => 76,
            MsgType::JobDone => 77,
            MsgType::JobLocalBegin => 78,
            MsgType::JobLocalDone => 79,
            MsgType::Login => 80,
            MsgType::CsConf => 81,
            MsgType::Stats => 82,
            MsgType::TransferEnv => 83,
            MsgType::GetInternals => 84,
            MsgType::MonLogin => 85,
            MsgType::MonGetCs => 86,
            MsgType::MonJobBegin => 87,
            MsgType::MonJobDone => 88,
            MsgType::MonLocalJobBegin => 89,
            MsgType::MonStats => 90,
            MsgType::Text => 91,
            MsgType::StatusText => 92,
            MsgType::VerifyEnv => 93,
            MsgType::VerifyEnvResult => 94,
            MsgType::BlacklistHostEnv => 95,
        }
    }

    pub fn from_code(n: u32) -> (r: Option<MsgType>)
        ensures
            r == type_of_code(n),
    {
        if n == 65 {
            Some(MsgType::Unknown)
        } else if n == 66 {
            Some(MsgType::Ping)
        } else if n == 67 {
            Some(MsgType::End)
        } else if n == 68 {
            Some(MsgType::Timeout)
        } else if n == 69 {
            Some(MsgType::GetNativeEnv)
        } else if n == 70 {
            Some(MsgType::NativeEnv)
        } else if n == 71 {
            Some(MsgType::GetCS)
        } else if n == 72 {
            Some(MsgType::UseCS)
        } else if n == 73 {
            Some(MsgType::CompileFile)
        } else if n == 74 {
            Some(MsgType::FileChunk)
        } else if n == 75 {
            Some(MsgType::CompileResult)
        } else if n == 76 {
            Some(MsgType::JobBegin)
        } else if n == 77 {
            Some(MsgType::JobDone)
        } else if n == 78 {
            Some(MsgType::JobLocalBegin)
        } else if n == 79 {
            Some(MsgType::JobLocalDone)
        } else if n == 80 {
            Some(MsgType::Login)
        } else if n == 81 {
            Some(MsgType::CsConf)
        } else if n == 82 {
            Some(MsgType::Stats)
        } else if n == 83 {
            Some(MsgType::TransferEnv)
        } else if n == 84 {
            Some(MsgType::GetInternals)
        } else if n == 85 {
            Some(MsgType::MonLogin)
        } else if n == 86 {
            Some(MsgType::MonGetCs)
        } else if n == 87 {
            Some(MsgType::MonJobBegin)
        } else if n == 88 {
            Some(MsgType::MonJobDone)
        } else if n == 89 {
            Some(MsgType::MonLocalJobBegin)
        } else if n == 90 {
            Some(MsgType::MonStats)
        } else if n == 91 {
            Some(MsgType::Text)
        } else if n == 92 {
            Some(MsgType::StatusText)
        } else if n == 93 {
            Some(MsgType::VerifyEnv)
        } else if n == 94 {
            Some(MsgType::VerifyEnvResult)
        } else if n == 95 {
            Some(MsgType::BlacklistHostEnv)
        } else {
            None
        }
    }
}

/// Every message type survives the trip through its wire code.
pub proof fn lemma_type_code_round_trip(t: MsgType)
    ensures
        type_of_code(type_code(t)) == Some(t),
{
}

pub proof fn lemma_code_below_flag(t: MsgType)
    ensures
        type_code(t) < crate::frame::COMPRESSED_FLAG,
{
}

/// A message as it stands in a frame: its type tag and its undecoded payload.
#[derive(Debug)]
pub struct Msg {
    pub tag: u32,
    pub payload: Vec<u8>,
}

impl Msg {
    /// The type that the tag names, if any.
    pub fn message_type(&self) -> (r: Option<MsgType>)
        ensures
            r == type_of_code(self.tag),
    {
        MsgType::from_code(self.tag)
    }
}

/// A decoded protocol message: one variant per message type.
#[derive(Debug)]
pub enum Message {
    Ping(msg::Ping),
    End(msg::End),
    GetNativeEnv(msg::GetNativeEnv),
    NativeEnv(msg::NativeEnv),
    GetCS(msg::GetCS),
    UseCS(msg::UseCS),
    CompileFile(msg::CompileFile),
    FileChunk(msg::FileChunk),
    CompileResult(msg::CompileResult),
    JobBegin(msg::JobBegin),
    JobDone(msg::JobDone),
    LocalJobBegin(msg::LocalJobBegin),
    LocalJobDone(msg::LocalJobDone),
    Login(msg::Login),
    ConfCS(msg::ConfCS),
    Stats(msg::Stats),
    EnvTransfer(msg::EnvTransfer),
    InternalStatus(msg::InternalStatus),
    MonitorLogin(msg::MonitorLogin),
    MonitorGetCS(msg::MonitorGetCS),
    MonitorJobBegin(msg::MonitorJobBegin),
    MonitorJobDone(msg::MonitorJobDone),
    MonitorLocalJobBegin(msg::MonitorLocalJobBegin),
    MonitorStats(msg::MonitorStats),
    Text(msg::Text),
    StatusText(msg::StatusText),
    VerifyEnv(msg::VerifyEnv),
    VerifyEnvResult(msg::VerifyEnvResult),
    BlacklistHostEnv(msg::BlacklistHostEnv),
}

impl View for Message {
    type V = (MsgType, Seq<FieldV>);

    open spec fn view(&self) -> (MsgType, Seq<FieldV>) {
        (self.spec_kind(), self.spec_fields())
    }
}

/// What decoding a payload under a tag gives: the message's model, or the
/// error: an unknown or reserved tag, or fields that do not fit the bytes.
pub open spec fn decode_message(tag: u32, payload: Seq<u8>) -> Result<
    (MsgType, Seq<FieldV>),
    ProtocolError,
> {
    match type_of_code(tag) {
        None => Err(ProtocolError::UnknownMessageType),
        Some(t) => if is_reserved(t) {
            Err(ProtocolError::UnknownMessageType)
        } else {
            match parse_fields(layout(t), payload) {
                None => Err(ProtocolError::MalformedPayload),
                Some(fs) => Ok((t, fs)),
            }
        },
    }
}

fn layout_of(t: MsgType) -> (r: Vec<FieldKind>)
    ensures
        r@ == layout(t),
{
    let mut v: Vec<FieldKind> = Vec::new();
    match t {
        MsgType::Ping => {
            assert(v@ =~= layout(MsgType::Ping));
        },
        MsgType::End => {
            assert(v@ =~= layout(MsgType::End));
        },
        MsgType::GetNativeEnv => {
            v.push(FieldKind::Text);
            assert(v@ =~= layout(MsgType::GetNativeEnv));
        },
        MsgType::NativeEnv => {
            v.push(FieldKind::Text);
            assert(v@ =~= layout(MsgType::NativeEnv));
        },
        MsgType::GetCS => {
            push_job_layout(&mut v);
            assert(v@ =~= layout(MsgType::GetCS));
        },
        MsgType::UseCS => {
            v.push(FieldKind::Num);
            v.push(FieldKind::Num);
            v.push(FieldKind::Text);
            v.push(FieldKind::Num);
            assert(v@ =~= layout(MsgType::UseCS));
        },
        MsgType::CompileFile => {
            push_job_layout(&mut v);
            assert(v@ =~= layout(MsgType::CompileFile));
        },
        MsgType::FileChunk => {
            v.push(FieldKind::Blob);
            assert(v@ =~= layout(MsgType::FileChunk));
        },
        MsgType::CompileResult => {
            v.push(FieldKind::Num);
            v.push(FieldKind::Text);
            v.push(FieldKind::Text);
            assert(v@ =~= layout(MsgType::CompileResult));
        },
        MsgType::JobBegin => {
            v.push(FieldKind::Num);
            v.push(FieldKind::Num);
            assert(v@ =~= layout(MsgType::JobBegin));
        },
        MsgType::JobDone => {
            v.push(FieldKind::Num);
            v.push(FieldKind::Num);
            assert(v@ =~= layout(MsgType::JobDone));
        },
        MsgType::JobLocalBegin => {
            v.push(FieldKind::Num);
            v.push(FieldKind::Text);
            assert(v@ =~= layout(MsgType::JobLocalBegin));
        },
        MsgType::JobLocalDone => {
            v.push(FieldKind::Num);
            assert(v@ =~= layout(MsgType::JobLocalDone));
        },
        MsgType::Login => {
            v.push(FieldKind::Num);
            v.push(FieldKind::Text);
            assert(v@ =~= layout(MsgType::Login));
        },
        MsgType::CsConf => {
            v.push(FieldKind::Num);
            v.push(FieldKind::Num);
            assert(v@ =~= layout(MsgType::CsConf));
        },
        MsgType::Stats => {
            v.push(FieldKind::Num);
            assert(v@ =~= layout(MsgType::Stats));
        },
        MsgType::TransferEnv => {
            v.push(FieldKind::Text);
            v.push(FieldKind::Text);
            assert(v@ =~= layout(MsgType::TransferEnv));
        },
        MsgType::GetInternals => {
            assert(v@ =~= layout(MsgType::GetInternals));
        },
        MsgType::MonLogin => {
            assert(v@ =~= layout(MsgType::MonLogin));
        },
        MsgType::MonGetCs => {
            v.push(FieldKind::Num);
            v.push(FieldKind::Num);
            v.push(FieldKind::Text);
            assert(v@ =~= layout(MsgType::MonGetCs));
        },
        MsgType::MonJobBegin => {
            v.push(FieldKind::Num);
            v.push(FieldKind::Num);
            assert(v@ =~= layout(MsgType::MonJobBegin));
        },
        MsgType::MonJobDone => {
            v.push(FieldKind::Num);
            assert(v@ =~= layout(MsgType::MonJobDone));
        },
        MsgType::MonLocalJobBegin => {
            v.push(FieldKind::Num);
            v.push(FieldKind::Text);
            assert(v@ =~= layout(MsgType::MonLocalJobBegin));
        },
        MsgType::MonStats => {
            v.push(FieldKind::Num);
            v.push(FieldKind::Text);
            assert(v@ =~= layout(MsgType::MonStats));
        },
        MsgType::Text => {
            v.push(FieldKind::Text);
            assert(v@ =~= layout(MsgType::Text));
        },
        MsgType::StatusText => {
            v.push(FieldKind::Text);
            assert(v@ =~= layout(MsgType::StatusText));
        },
        MsgType::VerifyEnv => {
            v.push(FieldKind::Text);
            v.push(FieldKind::Text);
            assert(v@ =~= layout(MsgType::VerifyEnv));
        },
        MsgType::VerifyEnvResult => {
            v.push(FieldKind::Num);
            assert(v@ =~= layout(MsgType::VerifyEnvResult));
        },
        MsgType::BlacklistHostEnv => {
            v.push(FieldKind::Text);
            v.push(FieldKind::Text);
            v.push(FieldKind::Text);
            assert(v@ =~= layout(MsgType::BlacklistHostEnv));
        },
        _ => {},
    }
    v
}

fn push_job_layout(v: &mut Vec<FieldKind>)
    ensures
        final(v)@ == old(v)@ + job_layout(),
{
    v.push(FieldKind::Num);
    v.push(FieldKind::Lang);
    v.push(FieldKind::Text);
    v.push(FieldKind::Text);
    v.push(FieldKind::Text);
    v.push(FieldKind::Text);
    v.push(FieldKind::Text);
    assert(v@ =~= old(v)@ + job_layout());
}

fn push_job_fields(v: &mut Vec<Field>, j: &CompileJob)
    ensures
        fields_view(final(v)@) == fields_view(old(v)@) + job_fields(j@),
{
    v.push(Field::Num(j.job_id));
    v.push(Field::Lang(j.language));
    v.push(Field::Text(j.compiler_name.clone()));
    v.push(Field::Text(j.environment_version.clone()));
    v.push(Field::Text(j.input_file.clone()));
    v.push(Field::Text(j.output_file.clone()));
    v.push(Field::Text(j.target_platform.clone()));
    assert(fields_view(v@) =~= fields_view(old(v)@) + job_fields(j@));
}

fn num_at(fs: &Vec<Field>, i: usize) -> (r: u32)
    requires
        i < fs@.len(),
        crate::wire::kind_of(fs@[i as int]@) == FieldKind::Num,
    ensures
        fs@[i as int]@ == FieldV::Num(r),
{
    match &fs[i] {
        Field::Num(n) => *n,
        _ => 0,
    }
}

fn lang_at(fs: &Vec<Field>, i: usize) -> (r: Language)
    requires
        i < fs@.len(),
        crate::wire::kind_of(fs@[i as int]@) == FieldKind::Lang,
    ensures
        fs@[i as int]@ == FieldV::Lang(r),
{
    match &fs[i] {
        Field::Lang(l) => *l,
        _ => Language::C,
    }
}

fn text_at(fs: &Vec<Field>, i: usize) -> (r: String)
    requires
        i < fs@.len(),
        crate::wire::kind_of(fs@[i as int]@) == FieldKind::Text,
    ensures
        fs@[i as int]@ == FieldV::Text(r@),
{
    match &fs[i] {
        Field::Text(s) => s.clone(),
        _ => String::new(),
    }
}

fn blob_at(fs: &Vec<Field>, i: usize) -> (r: Vec<u8>)
    requires
        i < fs@.len(),
        crate::wire::kind_of(fs@[i as int]@) == FieldKind::Blob,
    ensures
        fs@[i as int]@ == FieldV::Blob(r@),
{
    match &fs[i] {
        Field::Blob(b) => b.clone(),
        _ => Vec::new(),
    }
}

fn job_at(fs: &Vec<Field>, i: usize) -> (r: CompileJob)
    requires
        i + 7 <= fs@.len(),
        crate::wire::kind_of(fs@[i as int]@) == FieldKind::Num,
        fs@[i + 1]@ is Lang,
        forall|j: int| i + 2 <= j < i + 7 ==> fs@[j]@ is Text,
    ensures
        fields_view(fs@).subrange(i as int, i + 7) == job_fields(r@),
{
    let _n = fs.len();
    let r = CompileJob {
        job_id: num_at(fs, i),
        language: lang_at(fs, i + 1),
        compiler_name: text_at(fs, i + 2),
        environment_version: text_at(fs, i + 3),
        input_file: text_at(fs, i + 4),
        output_file: text_at(fs, i + 5),
        target_platform: text_at(fs, i + 6),
    };
    assert(fields_view(fs@).subrange(i as int, i + 7) =~= job_fields(r@));
    r
}

/// Field shapes of a compile job, in wire order.
pub open spec fn job_layout() -> Seq<FieldKind> {
    seq![
        FieldKind::Num,
        FieldKind::Lang,
        FieldKind::Text,
        FieldKind::Text,
        FieldKind::Text,
        FieldKind::Text,
        FieldKind::Text,
    ]
}

impl CompileJob {
    /// Decodes a job from the start of its wire bytes: id, language code and
    /// the five strings. None where the bytes end early or hold invalid
    /// UTF-8 or an unknown language.
    pub fn from_raw_ptr(bytes: &[u8]) -> (r: Option<CompileJob>)
        ensures
            match parse_fields(job_layout(), bytes@) {
                None => r is None,
                Some(fs) => r matches Some(j) && job_fields(j@) == fs,
            },
    {
        let ks = layout_of(MsgType::GetCS);
        assert(ks@ =~= job_layout());
        assert(ks@.skip(0) =~= ks@);
        assert(bytes@.skip(0) =~= bytes@);
        match parse_fields_at(ks.as_slice(), 0, bytes, 0) {
            None => None,
            Some(fs) => {
                proof {
                    lemma_parsed_conform(job_layout(), bytes@);
                    assert forall|j: int| 0 <= j < fs@.len() implies crate::wire::kind_of(
                        #[trigger] fs@[j]@,
                    ) == job_layout()[j] by {
                        assert(fields_view(fs@)[j] == fs@[j]@);
                    }
                }
                let job = job_at(&fs, 0);
                assert(fields_view(fs@).subrange(0, 7) =~= fields_view(fs@));
                Some(job)
            },
        }
    }
}

impl Message {
    pub open spec fn spec_kind(&self) -> MsgType {
        match self {
            Message::Ping(_) => MsgType::Ping,
            Message::End(_) => MsgType::End,
            Message::GetNativeEnv(_) => MsgType::GetNativeEnv,
            Message::NativeEnv(_) => MsgType::NativeEnv,
            Message::GetCS(_) => MsgType::GetCS,
            Message::UseCS(_) => MsgType::UseCS,
            Message::CompileFile(_) => MsgType::CompileFile,
            Message::FileChunk(_) => MsgType::FileChunk,
            Message::CompileResult(_) => MsgType::CompileResult,
            Message::JobBegin(_) => MsgType::JobBegin,
            Message::JobDone(_) => MsgType::JobDone,
            Message::LocalJobBegin(_) => MsgType::JobLocalBegin,
            Message::LocalJobDone(_) => MsgType::JobLocalDone,
            Message::Login(_) => MsgType::Login,
            Message::ConfCS(_) => MsgType::CsConf,
            Message::Stats(_) => MsgType::Stats,
            Message::EnvTransfer(_) => MsgType::TransferEnv,
            Message::InternalStatus(_) => MsgType::GetInternals,
            Message::MonitorLogin(_) => MsgType::MonLogin,
            Message::MonitorGetCS(_) => MsgType::MonGetCs,
            Message::MonitorJobBegin(_) => MsgType::MonJobBegin,
            Message::MonitorJobDone(_) => MsgType::MonJobDone,
            Message::MonitorLocalJobBegin(_) => MsgType::MonLocalJobBegin,
            Message::MonitorStats(_) => MsgType::MonStats,
            Message::Text(_) => MsgType::Text,
            Message::StatusText(_) => MsgType::StatusText,
            Message::VerifyEnv(_) => MsgType::VerifyEnv,
            Message::VerifyEnvResult(_) => MsgType::VerifyEnvResult,
            Message::BlacklistHostEnv(_) => MsgType::BlacklistHostEnv,
        }
    }

    pub open spec fn spec_fields(&self) -> Seq<FieldV> {
        match self {
            Message::Ping(_) => Seq::empty(),
            Message::End(_) => Seq::empty(),
            Message::GetNativeEnv(m) => seq![FieldV::Text(m.compiler@)],
            Message::NativeEnv(m) => seq![FieldV::Text(m.version@)],
            Message::GetCS(m) => job_fields(m.job@),
            Message::UseCS(m) => seq![
                FieldV::Num(m.job_id),
                FieldV::Num(m.host_id),
                FieldV::Text(m.hostname@),
                FieldV::Num(m.port),
            ],
            Message::CompileFile(m) => job_fields(m.job@),
            Message::FileChunk(m) => seq![FieldV::Blob(m.data@)],
            Message::CompileResult(m) => seq![
                FieldV::Num(m.status),
                FieldV::Text(m.out@),
                FieldV::Text(m.err@),
            ],
            Message::JobBegin(m) => seq![FieldV::Num(m.job_id), FieldV::Num(m.start_time)],
            Message::JobDone(m) => seq![FieldV::Num(m.job_id), FieldV::Num(m.exit_code)],
            Message::LocalJobBegin(m) => seq![FieldV::Num(m.job_id), FieldV::Text(m.filename@)],
            Message::LocalJobDone(m) => seq![FieldV::Num(m.job_id)],
            Message::Login(m) => seq![FieldV::Num(m.port), FieldV::Text(m.nodename@)],
            Message::ConfCS(m) => seq![
                FieldV::Num(m.max_scheduler_pong),
                FieldV::Num(m.max_scheduler_ping),
            ],
            Message::Stats(m) => seq![FieldV::Num(m.load)],
            Message::EnvTransfer(m) => seq![FieldV::Text(m.name@), FieldV::Text(m.target@)],
            Message::InternalStatus(_) => Seq::empty(),
            Message::MonitorLogin(_) => Seq::empty(),
            Message::MonitorGetCS(m) => seq![
                FieldV::Num(m.job_id),
                FieldV::Num(m.client_id),
                FieldV::Text(m.filename@),
            ],
            Message::MonitorJobBegin(m) => seq![FieldV::Num(m.job_id), FieldV::Num(m.host_id)],
            Message::MonitorJobDone(m) => seq![FieldV::Num(m.job_id)],
            Message::MonitorLocalJobBegin(m) => seq![
                FieldV::Num(m.job_id),
                FieldV::Text(m.filename@),
            ],
            Message::MonitorStats(m) => seq![FieldV::Num(m.host_id), FieldV::Text(m.message@)],
            Message::Text(m) => seq![FieldV::Text(m.text@)],
            Message::StatusText(m) => seq![FieldV::Text(m.text@)],
            Message::VerifyEnv(m) => seq![FieldV::Text(m.target@), FieldV::Text(m.environment@)],
            Message::VerifyEnvResult(m) => seq![FieldV::Num(m.result)],
            Message::BlacklistHostEnv(m) => seq![
                FieldV::Text(m.target@),
                FieldV::Text(m.environment@),
                FieldV::Text(m.hostname@),
            ],
        }
    }

    /// The message's type.
    pub fn kind(&self) -> (r: MsgType)
        ensures
            r == self@.0,
    {
        match self {
            Message::Ping(_) => MsgType::Ping,
            Message::End(_) => MsgType::End,
            Message::GetNativeEnv(_) => MsgType::GetNativeEnv,
            Message::NativeEnv(_) => MsgType::NativeEnv,
            Message::GetCS(_) => MsgType::GetCS,
            Message::UseCS(_) => MsgType::UseCS,
            Message::CompileFile(_) => MsgType::CompileFile,
            Message::FileChunk(_) => MsgType::FileChunk,
            Message::CompileResult(_) => MsgType::CompileResult,
            Message::JobBegin(_) => MsgType::JobBegin,
            Message::JobDone(_) => MsgType::JobDone,
            Message::LocalJobBegin(_) => MsgType::JobLocalBegin,
            Message::LocalJobDone(_) => MsgType::JobLocalDone,
            Message::Login(_) => MsgType::Login,
            Message::ConfCS(_) => MsgType::CsConf,
            Message::Stats(_) => MsgType::Stats,
            Message::EnvTransfer(_) => MsgType::TransferEnv,
            Message::InternalStatus(_) => MsgType::GetInternals,
            Message::MonitorLogin(_) => MsgType::MonLogin,
            Message::MonitorGetCS(_) => MsgType::MonGetCs,
            Message::MonitorJobBegin(_) => MsgType::MonJobBegin,
            Message::MonitorJobDone(_) => MsgType::MonJobDone,
            Message::MonitorLocalJobBegin(_) => MsgType::MonLocalJobBegin,
            Message::MonitorStats(_) => MsgType::MonStats,
            Message::Text(_) => MsgType::Text,
            Message::StatusText(_) => MsgType::StatusText,
            Message::VerifyEnv(_) => MsgType::VerifyEnv,
            Message::VerifyEnvResult(_) => MsgType::VerifyEnvResult,
            Message::BlacklistHostEnv(_) => MsgType::BlacklistHostEnv,
        }
    }

    /// The message's fields, in wire order.
    pub fn fields(&self) -> (r: Vec<Field>)
        ensures
            fields_view(r@) == self@.1,
    {
        let mut v: Vec<Field> = Vec::new();
        match self {
            Message::Ping(m) => {
            },
            Message::End(m) => {
            },
            Message::GetNativeEnv(m) => {
                v.push(Field::Text(m.compiler.clone()));
            },
            Message::NativeEnv(m) => {
                v.push(Field::Text(m.version.clone()));
            },
            Message::GetCS(m) => {
                push_job_fields(&mut v, &m.job);
            },
            Message::UseCS(m) => {
                v.push(Field::Num(m.job_id));
                v.push(Field::Num(m.host_id));
                v.push(Field::Text(m.hostname.clone()));
                v.push(Field::Num(m.port));
            },
            Message::CompileFile(m) => {
                push_job_fields(&mut v, &m.job);
            },
            Message::FileChunk(m) => {
                v.push(Field::Blob(m.data.clone()));
            },
            Message::CompileResult(m) => {
                v.push(Field::Num(m.status));
                v.push(Field::Text(m.out.clone()));
                v.push(Field::Text(m.err.clone()));
            },
            Message::JobBegin(m) => {
                v.push(Field::Num(m.job_id));
                v.push(Field::Num(m.start_time));
            },
            Message::JobDone(m) => {
                v.push(Field::Num(m.job_id));
                v.push(Field::Num(m.exit_code));
            },
            Message::LocalJobBegin(m) => {
                v.push(Field::Num(m.job_id));
                v.push(Field::Text(m.filename.clone()));
            },
            Message::LocalJobDone(m) => {
                v.push(Field::Num(m.job_id));
            },
            Message::Login(m) => {
                v.push(Field::Num(m.port));
                v.push(Field::Text(m.nodename.clone()));
            },
            Message::ConfCS(m) => {
                v.push(Field::Num(m.max_scheduler_pong));
                v.push(Field::Num(m.max_scheduler_ping));
            },
            Message::Stats(m) => {
                v.push(Field::Num(m.load));
            },
            Message::EnvTransfer(m) => {
                v.push(Field::Text(m.name.clone()));
                v.push(Field::Text(m.target.clone()));
            },
            Message::InternalStatus(m) => {
            },
            Message::MonitorLogin(m) => {
            },
            Message::MonitorGetCS(m) => {
                v.push(Field::Num(m.job_id));
                v.push(Field::Num(m.client_id));
                v.push(Field::Text(m.filename.clone()));
            },
            Message::MonitorJobBegin(m) => {
                v.push(Field::Num(m.job_id));
                v.push(Field::Num(m.host_id));
            },
            Message::MonitorJobDone(m) => {
                v.push(Field::Num(m.job_id));
            },
            Message::MonitorLocalJobBegin(m) => {
                v.push(Field::Num(m.job_id));
                v.push(Field::Text(m.filename.clone()));
            },
            Message::MonitorStats(m) => {
                v.push(Field::Num(m.host_id));
                v.push(Field::Text(m.message.clone()));
            },
            Message::Text(m) => {
                v.push(Field::Text(m.text.clone()));
            },
            Message::StatusText(m) => {
                v.push(Field::Text(m.text.clone()));
            },
            Message::VerifyEnv(m) => {
                v.push(Field::Text(m.target.clone()));
                v.push(Field::Text(m.environment.clone()));
            },
            Message::VerifyEnvResult(m) => {
                v.push(Field::Num(m.result));
            },
            Message::BlacklistHostEnv(m) => {
                v.push(Field::Text(m.target.clone()));
                v.push(Field::Text(m.environment.clone()));
                v.push(Field::Text(m.hostname.clone()));
            },
        }
        assert(fields_view(v@) =~= self@.1);
        v
    }

    /// The message of type `t` with the given fields.
    fn build(t: MsgType, fs: &Vec<Field>) -> (r: Message)
        requires
            !is_reserved(t),
            conforms(layout(t), fields_view(fs@)),
        ensures
            r@ == (t, fields_view(fs@)),
    {
        proof {
            assert forall|j: int| 0 <= j < fs@.len() implies crate::wire::kind_of(
                #[trigger] fs@[j]@,
            ) == layout(t)[j] by {
                assert(fields_view(fs@)[j] == fs@[j]@);
            }
        }
        let r = match t {
            MsgType::Ping => Message::Ping(msg::Ping {  }),
            MsgType::End => Message::End(msg::End {  }),
            MsgType::GetNativeEnv => Message::GetNativeEnv(
                msg::GetNativeEnv {
                    compiler: text_at(fs,
                    0),
                },
            ),
            MsgType::NativeEnv => Message::NativeEnv(msg::NativeEnv { version: text_at(fs, 0) }),
            MsgType::GetCS => Message::GetCS(msg::GetCS { job: job_at(fs, 0) }),
            MsgType::UseCS => Message::UseCS(
                msg::UseCS {
                    job_id: num_at(fs,
                    0),
                    host_id: num_at(fs,
                    1),
                    hostname: text_at(fs,
                    2),
                    port: num_at(fs,
                    3),
                },
            ),
            MsgType::CompileFile => Message::CompileFile(msg::CompileFile { job: job_at(fs, 0) }),
            MsgType::FileChunk => Message::FileChunk(msg::FileChunk { data: blob_at(fs, 0) }),
            MsgType::CompileResult => Message::CompileResult(
                msg::CompileResult {
                    status: num_at(fs,
                    0),
                    out: text_at(fs,
                    1),
                    err: text_at(fs,
                    2),
                },
            ),
            MsgType::JobBegin => Message::JobBegin(
                msg::JobBegin {
                    job_id: num_at(fs,
                    0),
                    start_time: num_at(fs,
                    1),
                },
            ),
            MsgType::JobDone => Message::JobDone(
                msg::JobDone {
                    job_id: num_at(fs,
                    0),
                    exit_code: num_at(fs,
                    1),
                },
            ),
            MsgType::JobLocalBegin => Message::LocalJobBegin(
                msg::LocalJobBegin {
                    job_id: num_at(fs,
                    0),
                    filename: text_at(fs,
                    1),
                },
            ),
            MsgType::JobLocalDone => Message::LocalJobDone(
                msg::LocalJobDone {
                    job_id: num_at(fs,
                    0),
                },
            ),
            MsgType::Login => Message::Login(
                msg::Login {
                    port: num_at(fs,
                    0),
                    nodename: text_at(fs,
                    1),
                },
            ),
            MsgType::CsConf => Message::ConfCS(
                msg::ConfCS {
                    max_scheduler_pong: num_at(fs,
                    0),
                    max_scheduler_ping: num_at(fs,
                    1),
                },
            ),
            MsgType::Stats => Message::Stats(msg::Stats { load: num_at(fs, 0) }),
            MsgType::TransferEnv => Message::EnvTransfer(
                msg::EnvTransfer {
                    name: text_at(fs,
                    0),
                    target: text_at(fs,
                    1),
                },
            ),
            MsgType::GetInternals => Message::InternalStatus(msg::InternalStatus {  }),
            MsgType::MonLogin => Message::MonitorLogin(msg::MonitorLogin {  }),
            MsgType::MonGetCs => Message::MonitorGetCS(
                msg::MonitorGetCS {
                    job_id: num_at(fs,
                    0),
                    client_id: num_at(fs,
                    1),
                    filename: text_at(fs,
                    2),
                },
            ),
            MsgType::MonJobBegin => Message::MonitorJobBegin(
                msg::MonitorJobBegin {
                    job_id: num_at(fs,
                    0),
                    host_id: num_at(fs,
                    1),
                },
            ),
            MsgType::MonJobDone => Message::MonitorJobDone(
                msg::MonitorJobDone {
                    job_id: num_at(fs,
                    0),
                },
            ),
            MsgType::MonLocalJobBegin => Message::MonitorLocalJobBegin(
                msg::MonitorLocalJobBegin {
                    job_id: num_at(fs,
                    0),
                    filename: text_at(fs,
                    1),
                },
            ),
            MsgType::MonStats => Message::MonitorStats(
                msg::MonitorStats {
                    host_id: num_at(fs,
                    0),
                    message: text_at(fs,
                    1),
                },
            ),
            MsgType::Text => Message::Text(msg::Text { text: text_at(fs, 0) }),
            MsgType::StatusText => Message::StatusText(msg::StatusText { text: text_at(fs, 0) }),
            MsgType::VerifyEnv => Message::VerifyEnv(
                msg::VerifyEnv {
                    target: text_at(fs,
                    0),
                    environment: text_at(fs,
                    1),
                },
            ),
            MsgType::VerifyEnvResult => Message::VerifyEnvResult(
                msg::VerifyEnvResult {
                    result: num_at(fs,
                    0),
                },
            ),
            MsgType::BlacklistHostEnv => Message::BlacklistHostEnv(
                msg::BlacklistHostEnv {
                    target: text_at(fs,
                    0),
                    environment: text_at(fs,
                    1),
                    hostname: text_at(fs,
                    2),
                },
            ),
            _ => Message::Ping(msg::Ping {}),
        };
        assert(r@.1 =~= fields_view(fs@));
        r
    }

    /// Decodes an undecoded message into its variant. Unknown and reserved
    /// tags give `UnknownMessageType`; fields that run past the payload, or
    /// hold invalid UTF-8 or an unknown language, give `MalformedPayload`.
    pub fn from_raw_ptr(raw: &Msg) -> (r: Result<Message, ProtocolError>)
        ensures
            match decode_message(raw.tag, raw.payload@) {
                Ok(v) => r matches Ok(m) && m@ == v,
                Err(e) => r == Err::<Message, ProtocolError>(e),
            },
    {
        let t = match MsgType::from_code(raw.tag) {
            None => return Err(ProtocolError::UnknownMessageType),
            Some(t) => t,
        };
        if t == MsgType::Unknown || t == MsgType::Timeout {
            return Err(ProtocolError::UnknownMessageType);
        }
        let ks = layout_of(t);
        assert(ks@.skip(0) =~= ks@);
        assert(raw.payload@.skip(0) =~= raw.payload@);
        match parse_fields_at(ks.as_slice(), 0, raw.payload.as_slice(), 0) {
            None => Err(ProtocolError::MalformedPayload),
            Some(fs) => {
                proof {
                    lemma_parsed_conform(layout(t), raw.payload@);
                }
                Ok(Message::build(t, &fs))
            },
        }
    }

    /// Encodes the message: its type's tag and its fields in wire order.
    /// None where a string or blob is longer than a length prefix can say.
    pub fn as_raw_ptr(&self) -> (r: Option<Msg>)
        ensures
            r is Some <==> fields_fit(self@.1),
            r matches Some(m) ==> m.tag == type_code(self@.0) && m.payload@ == encode_fields(
                self@.1,
            ),
    {
        let fs = self.fields();
        let ghost fv = fields_view(fs@);
        let mut i: usize = 0;
        while i < fs.len()
            invariant
                i <= fs@.len(),
                fv == fields_view(fs@),
                fv == self@.1,
                forall|j: int| 0 <= j < i ==> crate::wire::field_fits(#[trigger] fv[j]),
            decreases fs@.len() - i,
        {
            assert(fv[i as int] == fs@[i as int]@);
            if !fs[i].fits() {
                assert(!crate::wire::field_fits(fv[i as int]));
                return None;
            }
            i = i + 1;
        }
        let mut out: Vec<u8> = Vec::new();
        let mut i: usize = 0;
        while i < fs.len()
            invariant
                i <= fs@.len(),
                fv == fields_view(fs@),
                fv == self@.1,
                fields_fit(fv),
                out@ == encode_fields(fv.take(i as int)),
            decreases fs@.len() - i,
        {
            fs[i].encode_into(&mut out);
            proof {
                lemma_encode_fields_snoc(fv.take(i as int), fv[i as int]);
                assert(fv.take(i as int).push(fv[i as int]) =~= fv.take(i + 1));
            }
            i = i + 1;
        }
        assert(fv.take(i as int) =~= fv);
        Some(Msg { tag: self.kind().code(), payload: out })
    }
}

pub proof fn lemma_encode_fields_snoc(fs: Seq<FieldV>, f: FieldV)
    ensures
        encode_fields(fs.push(f)) == encode_fields(fs) + encode_field(f),
    decreases fs.len(),
{
    if fs.len() == 0 {
        assert(fs.push(f).drop_first() =~= Seq::<FieldV>::empty());
        assert(encode_fields(Seq::<FieldV>::empty()) == Seq::<u8>::empty());
        assert(fs.push(f)[0] == f);
        assert(encode_fields(fs.push(f)) =~= encode_field(f));
    } else {
        assert(fs.push(f).drop_first() =~= fs.drop_first().push(f));
        lemma_encode_fields_snoc(fs.drop_first(), f);
        assert(encode_fields(fs.push(f)) =~= encode_fields(fs) + encode_field(f));
    }
}

/// What parses under a layout has the layout's shapes.
pub proof fn lemma_parsed_conform(ks: Seq<FieldKind>, s: Seq<u8>)
    ensures
        parse_fields(ks, s) matches Some(fs) ==> conforms(ks, fs),
    decreases ks.len(),
{
    if ks.len() > 0 {
        match crate::wire::parse_field(ks[0], s) {
            None => {},
            Some((f, n)) => {
                lemma_parsed_conform(ks.drop_first(), s.skip(n));
                if let Some(fs) = parse_fields(ks, s) {
                    let rest = parse_fields(ks.drop_first(), s.skip(n)).unwrap();
                    assert(fs == seq![f] + rest);
                    assert forall|i: int| 0 <= i < ks.len() implies crate::wire::kind_of(
                        #[trigger] fs[i],
                    ) == ks[i] by {
                        if i > 0 {
                            assert(fs[i] == rest[i - 1]);
                            assert(ks[i] == ks.drop_first()[i - 1]);
                        }
                    }
                }
            },
        }
    }
}

/// The fields of every message have its type's layout, and no message has a
/// reserved type.
pub proof fn lemma_message_conforms(m: Message)
    ensures
        !is_reserved(m@.0),
        conforms(layout(m@.0), m@.1),
{
}

/// Decoding what a message encodes to gives the message back, for every
/// message whose strings and blobs fit their length prefixes.
pub proof fn lemma_message_round_trip(m: Message)
    requires
        fields_fit(m@.1),
    ensures
        decode_message(type_code(m@.0), encode_fields(m@.1)) == Ok::<
            (MsgType, Seq<FieldV>),
            ProtocolError,
        >(m@),
{
    lemma_message_conforms(m);
    lemma_model_round_trip(m@.0, m@.1);
}

/// Decoding the encoding of a model gives it back.
pub proof fn lemma_model_round_trip(t: MsgType, fs: Seq<FieldV>)
    requires
        !is_reserved(t),
        conforms(layout(t), fs),
        fields_fit(fs),
    ensures
        decode_message(type_code(t), encode_fields(fs)) == Ok::<
            (MsgType, Seq<FieldV>),
            ProtocolError,
        >((t, fs)),
{
    lemma_type_code_round_trip(t);
    lemma_parse_encode_fields(layout(t), fs, Seq::empty());
    assert(encode_fields(fs) + Seq::<u8>::empty() =~= encode_fields(fs));
}

} // verus!
