//! The bookkeeping of a run: one run at a time, its log and its results.
use crate::command::{Launch, RunForm};
use crate::results::{loaded_fit, read_fit_values, FitValues};
use crate::text::{decimal_nat, format_unsigned, texts};
use vstd::prelude::*;

verus! {

/// What the front-end knows of the runs so far.
#[derive(Clone, Debug)]
pub struct Session {
    /// Whether a run is under way.
    pub running: bool,
    /// What the last run printed: its output, then its errors.
    pub log: String,
    /// The output directory of the last run whose results were read.
    pub result_dir: Option<String>,
    /// The fitted values that were read last.
    pub fit: FitValues,
    /// How long the last run took, in milliseconds.
    pub last_run_ms: Option<u128>,
}

/// The fitted values that a run leaves, given the contents of its result
/// file where there is one.
pub open spec fn loaded_from(result_text: Option<&str>) -> Option<FitValues> {
    match result_text {
        Some(t) => loaded_fit(t@),
        None => None,
    }
}

/// The line that tells how long the last run took.
pub fn last_run_label(ms: u128) -> (r: String)
    ensures
        r@ == "Last run: "@ + decimal_nat(ms as nat) + " ms"@,
{
    let mut r: String = String::from_str("Last run: ");
    let n: String = format_unsigned(ms);
    r.append(n.as_str());
    r.append(" ms");
    r
}

impl Session {
    /// A session in which nothing has run.
    pub fn new() -> (r: Session)
        ensures
            !r.running,
            r.log@.len() == 0,
            r.result_dir is None,
            r.fit == (FitValues { alpha: None, k: None, mc_solar: None }),
            r.last_run_ms is None,
    {
        Session {
            running: false,
            log: String::new(),
            result_dir: None,
            fit: FitValues { alpha: None, k: None, mc_solar: None },
            last_run_ms: None,
        }
    }

    /// Starts a run of `form`, unless one is under way: then nothing changes
    /// and nothing is to be started. Otherwise the log is emptied and the
    /// process to start is handed out.
    pub fn begin(&mut self, form: &RunForm) -> (r: Option<Launch>)
        ensures
            old(self).running ==> r is None && *final(self) == *old(self),
            !old(self).running ==> {
                &&& r is Some
                &&& r->0.out_dir@ == form.run_out_dir()
                &&& texts(r->0.args@) == form.run_args()
                &&& final(self).running
                &&& final(self).log@.len() == 0
                &&& final(self).result_dir == old(self).result_dir
                &&& final(self).fit == old(self).fit
                &&& final(self).last_run_ms == old(self).last_run_ms
            },
    {
        if self.running {
            return None;
        }
        self.running = true;
        self.log = String::new();
        Some(form.launch())
    }

    /// Ends a run that wrote to `out_dir`, printed `stdout` and `stderr` and
    /// took `elapsed_ms`. With `loaded`, the fitted values and the directory
    /// are replaced; without, they stay as they were.
    pub fn finish_with(
        &mut self,
        out_dir: &str,
        stdout: &str,
        stderr: &str,
        elapsed_ms: u128,
        loaded: Option<FitValues>,
    )
        ensures
            !final(self).running,
            final(self).log@ == old(self).log@ + stdout@ + stderr@,
            final(self).last_run_ms == Some(elapsed_ms),
            match loaded {
                Some(fit) => {
                    &&& final(self).fit == fit
                    &&& final(self).result_dir is Some
                    &&& final(self).result_dir->0@ == out_dir@
                },
                None => {
                    &&& final(self).fit == old(self).fit
                    &&& final(self).result_dir == old(self).result_dir
                },
            },
    {
        self.log.append(stdout);
        self.log.append(stderr);
        self.last_run_ms = Some(elapsed_ms);
        match loaded {
            Some(fit) => {
                self.fit = fit;
                self.result_dir = Some(String::from_str(out_dir));
            },
            None => {},
        }
        self.running = false;
    }

    /// Ends a run as `finish_with` does, with the fitted values read from
    /// `result_text`, the contents of the result file where it could be read.
    pub fn finish(
        &mut self,
        out_dir: &str,
        stdout: &str,
        stderr: &str,
        elapsed_ms: u128,
        result_text: Option<&str>,
    )
        ensures
            !final(self).running,
            final(self).log@ == old(self).log@ + stdout@ + stderr@,
            final(self).last_run_ms == Some(elapsed_ms),
            match loaded_from(result_text) {
                Some(fit) => {
                    &&& final(self).fit == fit
                    &&& final(self).result_dir is Some
                    &&& final(self).result_dir->0@ == out_dir@
                },
                None => {
                    &&& final(self).fit == old(self).fit
                    &&& final(self).result_dir == old(self).result_dir
                },
            },
    {
        let loaded: Option<FitValues> = match result_text {
            Some(t) => read_fit_values(t),
            None => None,
        };
        self.finish_with(out_dir, stdout, stderr, elapsed_ms, loaded);
    }
}

} // verus!
