//! The command line that starts a discovery run.
use crate::text::{decimal, format_i32, split_whitespace, texts, words};
use vstd::prelude::*;

verus! {

/// What `str::to_lowercase` makes of a text.
pub uninterp spec fn lowercase(s: Seq<char>) -> Seq<char>;

/// The event that is run where the form names none.
pub open spec fn default_event() -> Seq<char> {
    "GW150914"@
}

/// The detectors that are used where the form names none.
pub open spec fn default_ifos() -> Seq<char> {
    "H1 L1"@
}

/// `text`, or `fallback` where `text` is empty.
pub open spec fn or_default(text: Seq<char>, fallback: Seq<char>) -> Seq<char> {
    if text.len() == 0 {
        fallback
    } else {
        text
    }
}

/// The output directory of an event whose name, in lower case, is `lowered`.
pub open spec fn event_out_dir(lowered: Seq<char>) -> Seq<char> {
    "outputs/"@ + lowered
}

/// The output directory of a run of `event`: `out_dir`, or where that is
/// empty the directory of the event.
pub open spec fn out_dir_or_event(out_dir: Seq<char>, event: Seq<char>) -> Seq<char> {
    or_default(out_dir, event_out_dir(lowercase(event)))
}

/// One `--ifo` flag for each detector, in order.
pub open spec fn ifo_flags(ifos: Seq<Seq<char>>) -> Seq<Seq<char>> {
    Seq::new(
        2 * ifos.len(),
        |i: int|
            if i % 2 == 0 {
                "--ifo"@
            } else {
                ifos[i / 2]
            },
    )
}

/// The subcommand and the flags that every run has.
pub open spec fn fixed_flags(
    event: Seq<char>,
    tpad: Seq<char>,
    flow: Seq<char>,
    fhigh: Seq<char>,
    out: Seq<char>,
    gpu_device: int,
) -> Seq<Seq<char>> {
    seq![
        "discover-inspiral"@,
        "--event"@,
        event,
        "--tpad"@,
        tpad,
        "--flow"@,
        flow,
        "--fhigh"@,
        fhigh,
        "--out"@,
        out,
        "--gpu-device"@,
        decimal(gpu_device),
        "--save-plots"@,
        "true"@,
        "--save-csv"@,
        "true"@,
    ]
}

/// The arguments of a run: the fixed flags, then one `--ifo` for each word of
/// `ifos`.
pub open spec fn command_line_of(
    event: Seq<char>,
    ifos: Seq<char>,
    tpad: Seq<char>,
    flow: Seq<char>,
    fhigh: Seq<char>,
    out: Seq<char>,
    gpu_device: int,
) -> Seq<Seq<char>> {
    fixed_flags(event, tpad, flow, fhigh, out, gpu_device) + ifo_flags(words(ifos))
}

proof fn lemma_fixed_flags_len(
    event: Seq<char>,
    tpad: Seq<char>,
    flow: Seq<char>,
    fhigh: Seq<char>,
    out: Seq<char>,
    gpu_device: int,
)
    ensures
        fixed_flags(event, tpad, flow, fhigh, out, gpu_device).len() == 17,
{
}

/// The shape of a command line: the seventeen fixed arguments, then the
/// `--ifo` flags of the words of `ifos`, two arguments for each word.
pub proof fn lemma_command_line_shape(
    event: Seq<char>,
    ifos: Seq<char>,
    tpad: Seq<char>,
    flow: Seq<char>,
    fhigh: Seq<char>,
    out: Seq<char>,
    gpu_device: int,
)
    ensures
        ({
            let line = command_line_of(event, ifos, tpad, flow, fhigh, out, gpu_device);
            &&& line.len() == 17 + 2 * words(ifos).len()
            &&& line.take(17) == fixed_flags(event, tpad, flow, fhigh, out, gpu_device)
            &&& line.skip(17) == ifo_flags(words(ifos))
        }),
{
    let fixed = fixed_flags(event, tpad, flow, fhigh, out, gpu_device);
    let flags = ifo_flags(words(ifos));
    lemma_fixed_flags_len(event, tpad, flow, fhigh, out, gpu_device);
    assert((fixed + flags).take(17) =~= fixed);
    assert((fixed + flags).skip(17) =~= flags);
}

/// The values of the form. The three real-valued fields are held as the text
/// that goes on the command line.
#[derive(Clone, Debug)]
pub struct RunForm {
    pub event: String,
    pub ifos: String,
    pub tpad: String,
    pub flow: String,
    pub fhigh: String,
    pub gpu_device: i32,
    pub out_dir: String,
}

/// A process to start: its arguments, and the directory it writes to.
#[derive(Clone, Debug)]
pub struct Launch {
    pub args: Vec<String>,
    pub out_dir: String,
}

/// The name of the executable that is started.
pub fn program() -> (r: &'static str)
    ensures
        r@ == "derivegr"@,
{
    "derivegr"
}

/// `str::to_lowercase`: the contract gives its result a name and claims
/// nothing else of it.
#[verifier::external_body]
fn to_lowercase(s: &str) -> (r: String)
    ensures
        r@ == lowercase(s@),
{
    s.to_lowercase()
}

/// `text`, or `fallback` where `text` is empty.
pub fn text_or(text: &str, fallback: &str) -> (r: String)
    ensures
        r@ == or_default(text@, fallback@),
{
    if text.is_empty() {
        String::from_str(fallback)
    } else {
        String::from_str(text)
    }
}

/// The output directory of an event whose name, in lower case, is `lowered`.
pub fn out_dir_for(lowered: &str) -> (r: String)
    ensures
        r@ == event_out_dir(lowered@),
{
    let mut r: String = String::from_str("outputs/");
    r.append(lowered);
    r
}

/// The arguments that follow the detectors `ifos`: `--ifo` before each.
pub fn push_ifo_flags(args: &mut Vec<String>, ifos: &Vec<String>)
    ensures
        texts(final(args)@) == texts(old(args)@) + ifo_flags(texts(ifos@)),
{
    let ghost before = texts(args@);
    let mut i: usize = 0;
    assert(texts(args@) =~= before + ifo_flags(texts(ifos@)).take(0));
    while i < ifos.len()
        invariant
            i <= ifos.len(),
            texts(args@) == before + ifo_flags(texts(ifos@)).take(2 * i),
        decreases ifos.len() - i,
    {
        let ghost so_far = args@;
        args.push(String::from_str("--ifo"));
        args.push(ifos[i].clone());
        assert(texts(args@) =~= texts(so_far).push("--ifo"@).push(ifos[i as int]@));
        assert(ifo_flags(texts(ifos@)).take(2 * (i + 1)) =~= ifo_flags(texts(ifos@)).take(
            2 * i,
        ).push("--ifo"@).push(ifos[i as int]@));
        assert(texts(args@) =~= before + ifo_flags(texts(ifos@)).take(2 * (i + 1)));
        i = i + 1;
    }
    assert(ifo_flags(texts(ifos@)).take(2 * i) =~= ifo_flags(texts(ifos@)));
}

/// The arguments of a run of `event` that writes to `out`.
pub fn command_line(
    event: &str,
    ifos: &str,
    tpad: &str,
    flow: &str,
    fhigh: &str,
    out: &str,
    gpu_device: i32,
) -> (args: Vec<String>)
    ensures
        texts(args@) == command_line_of(
            event@,
            ifos@,
            tpad@,
            flow@,
            fhigh@,
            out@,
            gpu_device as int,
        ),
{
    let mut args: Vec<String> = Vec::new();
    args.push(String::from_str("discover-inspiral"));
    args.push(String::from_str("--event"));
    args.push(String::from_str(event));
    args.push(String::from_str("--tpad"));
    args.push(String::from_str(tpad));
    args.push(String::from_str("--flow"));
    args.push(String::from_str(flow));
    args.push(String::from_str("--fhigh"));
    args.push(String::from_str(fhigh));
    args.push(String::from_str("--out"));
    args.push(String::from_str(out));
    args.push(String::from_str("--gpu-device"));
    args.push(format_i32(gpu_device));
    args.push(String::from_str("--save-plots"));
    args.push(String::from_str("true"));
    args.push(String::from_str("--save-csv"));
    args.push(String::from_str("true"));
    assert(texts(args@) =~= fixed_flags(event@, tpad@, flow@, fhigh@, out@, gpu_device as int));
    let names: Vec<String> = split_whitespace(ifos);
    push_ifo_flags(&mut args, &names);
    args
}

impl RunForm {
    /// The event that a run of this form is for.
    pub open spec fn run_event(&self) -> Seq<char> {
        or_default(self.event@, default_event())
    }

    /// The directory that a run of this form writes to.
    pub open spec fn run_out_dir(&self) -> Seq<char> {
        out_dir_or_event(self.out_dir@, self.run_event())
    }

    /// The arguments of a run of this form.
    pub open spec fn run_args(&self) -> Seq<Seq<char>> {
        command_line_of(
            self.run_event(),
            self.ifos@,
            self.tpad@,
            self.flow@,
            self.fhigh@,
            self.run_out_dir(),
            self.gpu_device as int,
        )
    }

    /// Fills in the event and the detectors where the form leaves them empty;
    /// the other fields stay.
    pub fn with_defaults(self) -> (r: RunForm)
        ensures
            r.event@ == or_default(self.event@, default_event()),
            r.ifos@ == or_default(self.ifos@, default_ifos()),
            r.tpad == self.tpad,
            r.flow == self.flow,
            r.fhigh == self.fhigh,
            r.gpu_device == self.gpu_device,
            r.out_dir == self.out_dir,
    {
        let event: String = text_or(self.event.as_str(), "GW150914");
        let ifos: String = text_or(self.ifos.as_str(), "H1 L1");
        RunForm {
            event,
            ifos,
            tpad: self.tpad,
            flow: self.flow,
            fhigh: self.fhigh,
            gpu_device: self.gpu_device,
            out_dir: self.out_dir,
        }
    }

    /// The event that a run of this form is for: `GW150914` where the form
    /// names none.
    pub fn event_name(&self) -> (r: String)
        ensures
            r@ == self.run_event(),
    {
        text_or(self.event.as_str(), "GW150914")
    }

    /// The process that a run of this form starts.
    pub fn launch(&self) -> (r: Launch)
        ensures
            r.out_dir@ == self.run_out_dir(),
            texts(r.args@) == self.run_args(),
    {
        let event: String = self.event_name();
        let out_dir: String = if self.out_dir.as_str().is_empty() {
            let lowered: String = to_lowercase(event.as_str());
            out_dir_for(lowered.as_str())
        } else {
            self.out_dir.clone()
        };
        let args: Vec<String> = command_line(
            event.as_str(),
            self.ifos.as_str(),
            self.tpad.as_str(),
            self.flow.as_str(),
            self.fhigh.as_str(),
            out_dir.as_str(),
            self.gpu_device,
        );
        Launch { args, out_dir }
    }
}

} // verus!
