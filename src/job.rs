use vstd::prelude::*;

verus! {

/// Source language of a compile job.
#[derive(Clone, Copy, Debug, PartialEq, Eq, Structural)]
pub enum Language {
    C,
    CPlusPlus,
    ObjectiveC,
    Custom,
}

/// Wire representation of a language.
pub open spec fn language_code(l: Language) -> u32 {
    match l {
        Language::C => 0,
        Language::CPlusPlus => 1,
        Language::ObjectiveC => 2,
        Language::Custom => 3,
    }
}

/// The language that a wire code stands for, if any.
pub open spec fn language_of_code(n: u32) -> Option<Language> {
    if n == 0 {
        Some(Language::C)
    } else if n == 1 {
        Some(Language::CPlusPlus)
    } else if n == 2 {
        Some(Language::ObjectiveC)
    } else if n == 3 {
        Some(Language::Custom)
    } else {
        None
    }
}

impl Language {
    pub fn code(self) -> (r: u32)
        ensures
            r == language_code(self),
    {
        match self {
            Language::C => 0,
            Language::CPlusPlus => 1,
            Language::ObjectiveC => 2,
            Language::Custom => 3,
        }
    }

    pub fn from_code(n: u32) -> (r: Option<Language>)
        ensures
            r == language_of_code(n),
    {
        if n == 0 {
            Some(Language::C)
        } else if n == 1 {
            Some(Language::CPlusPlus)
        } else if n == 2 {
            Some(Language::ObjectiveC)
        } else if n == 3 {
            Some(Language::Custom)
        } else {
            None
        }
    }
}

/// Description of one compile job, carried inside job-related messages.
#[derive(Debug)]
pub struct CompileJob {
    pub job_id: u32,
    pub language: Language,
    pub compiler_name: String,
    pub environment_version: String,
    pub input_file: String,
    pub output_file: String,
    pub target_platform: String,
}

/// Mathematical model of a compile job.
#[verifier::ext_equal]
pub struct CompileJobView {
    pub job_id: u32,
    pub language: Language,
    pub compiler_name: Seq<char>,
    pub environment_version: Seq<char>,
    pub input_file: Seq<char>,
    pub output_file: Seq<char>,
    pub target_platform: Seq<char>,
}

impl View for CompileJob {
    type V = CompileJobView;

    open spec fn view(&self) -> CompileJobView {
        CompileJobView {
            job_id: self.job_id,
            language: self.language,
            compiler_name: self.compiler_name@,
            environment_version: self.environment_version@,
            input_file: self.input_file@,
            output_file: self.output_file@,
            target_platform: self.target_platform@,
        }
    }
}

/// The job that `CompileJob::new` makes: id 0, language C, empty strings.
pub open spec fn empty_job() -> CompileJobView {
    CompileJobView {
        job_id: 0,
        language: Language::C,
        compiler_name: Seq::empty(),
        environment_version: Seq::empty(),
        input_file: Seq::empty(),
        output_file: Seq::empty(),
        target_platform: Seq::empty(),
    }
}

impl CompileJob {
    /// A job with id 0, language C and empty strings.
    pub fn new() -> (r: CompileJob)
        ensures
            r@ == empty_job(),
    {
        let r = CompileJob {
            job_id: 0,
            language: Language::C,
            compiler_name: String::new(),
            environment_version: String::new(),
            input_file: String::new(),
            output_file: String::new(),
            target_platform: String::new(),
        };
        assert(r@.compiler_name =~= Seq::empty());
        assert(r@.environment_version =~= Seq::empty());
        assert(r@.input_file =~= Seq::empty());
        assert(r@.output_file =~= Seq::empty());
        assert(r@.target_platform =~= Seq::empty());
        r
    }
}

} // verus!
