use vstd::prelude::*;
use vstd::string::*;

verus! {

/// One external command: an executable name and its argument list.  Used both
/// for the single capture utility of the one-tool platforms and for each
/// candidate of the fallback chain.
pub struct ToolCommand {
    pub program: String,
    pub args: Vec<String>,
}

/// The inline scripting-host program that discovers the primary display's
/// bounds, copies the screen into a bitmap of that size and saves it: the
/// part before the destination path.
pub open spec fn script_host_prefix() -> Seq<char> {
    "Add-Type -AssemblyName System.Windows.Forms; Add-Type -AssemblyName System.Drawing; $bmp = New-Object System.Drawing.Bitmap([System.Windows.Forms.Screen]::PrimaryScreen.Bounds.Width, [System.Windows.Forms.Screen]::PrimaryScreen.Bounds.Height); $graphics = [System.Drawing.Graphics]::FromImage($bmp); $graphics.CopyFromScreen(0, 0, 0, 0, $bmp.Size); $bmp.Save('"@
}

/// The part of the inline scripting-host program after the destination path.
pub open spec fn script_host_suffix() -> Seq<char> {
    "'); $graphics.Dispose(); $bmp.Dispose()"@
}

/// The native full-screen capture invocation: silent, whole screen, no
/// interactive selection, one positional output path.
pub fn native_capture_command(destination: &str) -> (cmd: ToolCommand)
    ensures
        cmd.program@ == "screencapture"@,
        cmd.args@.len() == 3,
        cmd.args@[0]@ == "-x"@,
        cmd.args@[1]@ == "-S"@,
        cmd.args@[2]@ == destination@,
{
    ToolCommand {
        program: String::from_str("screencapture"),
        args: vec![
            String::from_str("-x"),
            String::from_str("-S"),
            String::from_str(destination),
        ],
    }
}

/// The scripting-host capture invocation: the host runs an inline script that
/// detects the display bounds, allocates a bitmap, copies the screen into it
/// and saves it at the destination path.
pub fn script_host_capture_command(destination: &str) -> (cmd: ToolCommand)
    ensures
        cmd.program@ == "powershell"@,
        cmd.args@.len() == 2,
        cmd.args@[0]@ == "-Command"@,
        cmd.args@[1]@ == script_host_prefix() + destination@ + script_host_suffix(),
{
    let script = String::from_str(
        "Add-Type -AssemblyName System.Windows.Forms; Add-Type -AssemblyName System.Drawing; $bmp = New-Object System.Drawing.Bitmap([System.Windows.Forms.Screen]::PrimaryScreen.Bounds.Width, [System.Windows.Forms.Screen]::PrimaryScreen.Bounds.Height); $graphics = [System.Drawing.Graphics]::FromImage($bmp); $graphics.CopyFromScreen(0, 0, 0, 0, $bmp.Size); $bmp.Save('",
    ).concat(destination).concat("'); $graphics.Dispose(); $bmp.Dispose()");
    ToolCommand {
        program: String::from_str("powershell"),
        args: vec![String::from_str("-Command"), script],
    }
}

/// The ordered fallback chain of externally installed capture tools, each
/// with its own fixed argument convention for a non-interactive whole-screen
/// capture saved at the destination path.
pub fn fallback_tool_candidates(destination: &str) -> (tools: Vec<ToolCommand>)
    ensures
        tools@.len() == 5,
        tools@[0].program@ == "gnome-screenshot"@,
        tools@[0].args@.len() == 2,
        tools@[0].args@[0]@ == "-f"@,
        tools@[0].args@[1]@ == destination@,
        tools@[1].program@ == "scrot"@,
        tools@[1].args@.len() == 1,
        tools@[1].args@[0]@ == destination@,
        tools@[2].program@ == "import"@,
        tools@[2].args@.len() == 3,
        tools@[2].args@[0]@ == "-window"@,
        tools@[2].args@[1]@ == "root"@,
        tools@[2].args@[2]@ == destination@,
        tools@[3].program@ == "spectacle"@,
        tools@[3].args@.len() == 4,
        tools@[3].args@[0]@ == "-b"@,
        tools@[3].args@[1]@ == "-n"@,
        tools@[3].args@[2]@ == "-o"@,
        tools@[3].args@[3]@ == destination@,
        tools@[4].program@ == "flameshot"@,
        tools@[4].args@.len() == 3,
        tools@[4].args@[0]@ == "full"@,
        tools@[4].args@[1]@ == "-p"@,
        tools@[4].args@[2]@ == destination@,
{
    vec![
        ToolCommand {
            program: String::from_str("gnome-screenshot"),
            args: vec![String::from_str("-f"), String::from_str(destination)],
        },
        ToolCommand {
            program: String::from_str("scrot"),
            args: vec![String::from_str(destination)],
        },
        ToolCommand {
            program: String::from_str("import"),
            args: vec![
                String::from_str("-window"),
                String::from_str("root"),
                String::from_str(destination),
            ],
        },
        ToolCommand {
            program: String::from_str("spectacle"),
            args: vec![
                String::from_str("-b"),
                String::from_str("-n"),
                String::from_str("-o"),
                String::from_str(destination),
            ],
        },
        ToolCommand {
            program: String::from_str("flameshot"),
            args: vec![
                String::from_str("full"),
                String::from_str("-p"),
                String::from_str(destination),
            ],
        },
    ]
}

/// Where the fallback chain currently stands.
#[derive(Clone, Copy, PartialEq, Eq, Structural, Debug)]
pub enum ChainPhase {
    /// The tool at the current position must be probed for presence next.
    Probing,
    /// The tool at the current position is present and must be invoked next.
    Invoking,
    /// The tool at the current position was invoked and exited successfully.
    Succeeded,
    /// The tool at the current position was present but could not be spawned.
    SpawnFailed,
    /// Every candidate was absent or failed.
    Exhausted,
}

/// What came of invoking one present tool.
#[derive(Clone, Copy, PartialEq, Eq, Structural, Debug)]
pub enum InvokeOutcome {
    /// The process ran and exited with status zero.
    ExitSuccess,
    /// The process ran and exited with a non-zero status.
    ExitFailure,
    /// The operating system refused to start the process.
    SpawnError,
}

/// The decision core of the fallback chain: candidates are probed for
/// presence in order; an absent candidate is skipped without error; the first
/// present one is invoked; a non-zero exit moves on to the next candidate; a
/// successful exit ends the chain; a spawn refusal aborts it.  Presence is
/// always probed before an invocation, and no tool is ever invoked twice.
/// The caller performs the probes and invocations and feeds the results back.
pub struct FallbackChain {
    tool_count: usize,
    position: usize,
    phase: ChainPhase,
}

/// The chain has moved past the tool at `pre`'s position: on to the next
/// candidate if one is left, else to exhaustion.
pub open spec fn advanced_past(pre: FallbackChain, post: FallbackChain) -> bool {
    &&& post.tool_count() == pre.tool_count()
    &&& post.position() == pre.position() + 1
    &&& if pre.position() + 1 < pre.tool_count() {
        post.phase() == ChainPhase::Probing
    } else {
        post.phase() == ChainPhase::Exhausted
    }
}

impl FallbackChain {
    /// How many candidates the chain was started with.
    pub closed spec fn tool_count(self) -> int {
        self.tool_count as int
    }

    /// The index of the candidate the chain currently stands at.
    pub closed spec fn position(self) -> int {
        self.position as int
    }

    /// Where the chain currently stands.
    pub closed spec fn phase(self) -> ChainPhase {
        self.phase
    }

    /// The chain asks for no further probe or invocation.
    pub open spec fn done(self) -> bool {
        match self.phase() {
            ChainPhase::Probing => false,
            ChainPhase::Invoking => false,
            ChainPhase::Succeeded => true,
            ChainPhase::SpawnFailed => true,
            ChainPhase::Exhausted => true,
        }
    }

    /// The position stays within the candidate list until the chain is
    /// exhausted.
    pub open spec fn wf(self) -> bool {
        if self.phase() == ChainPhase::Exhausted {
            self.position() <= self.tool_count()
        } else {
            self.position() < self.tool_count()
        }
    }

    /// A chain over `tool_count` candidates, about to probe the first one;
    /// with no candidates at all it is exhausted from the start.
    pub fn new(tool_count: usize) -> (chain: FallbackChain)
        ensures
            chain.wf(),
            chain.tool_count() == tool_count,
            chain.position() == 0,
            tool_count == 0 ==> chain.phase() == ChainPhase::Exhausted,
            tool_count > 0 ==> chain.phase() == ChainPhase::Probing,
    {
        let phase = if tool_count == 0 {
            ChainPhase::Exhausted
        } else {
            ChainPhase::Probing
        };
        FallbackChain { tool_count, position: 0, phase }
    }

    /// Where the chain currently stands.
    pub fn phase_now(&self) -> (phase: ChainPhase)
        ensures
            phase == self.phase(),
    {
        self.phase
    }

    /// The index of the candidate the chain currently stands at.
    pub fn position_now(&self) -> (position: usize)
        ensures
            position == self.position(),
    {
        self.position
    }

    /// The chain asks for no further probe or invocation.
    pub fn is_done(&self) -> (done: bool)
        ensures
            done == self.done(),
    {
        match self.phase {
            ChainPhase::Probing => false,
            ChainPhase::Invoking => false,
            _ => true,
        }
    }

    /// Feed back the presence probe of the candidate at the current
    /// position: a present tool is invoked next, an absent one is skipped
    /// without error.
    pub fn on_probe(&mut self, present: bool)
        requires
            old(self).wf(),
            old(self).phase() == ChainPhase::Probing,
        ensures
            final(self).wf(),
            present ==> final(self).tool_count() == old(self).tool_count()
                && final(self).position() == old(self).position()
                && final(self).phase() == ChainPhase::Invoking,
            !present ==> advanced_past(*old(self), *final(self)),
    {
        if present {
            self.phase = ChainPhase::Invoking;
        } else {
            self.position = self.position + 1;
            self.phase = if self.position < self.tool_count {
                ChainPhase::Probing
            } else {
                ChainPhase::Exhausted
            };
        }
    }

    /// Feed back the invocation of the candidate at the current position: a
    /// zero exit ends the chain successfully, a non-zero exit moves on to the
    /// next candidate, a spawn refusal aborts the chain.
    pub fn on_invoke(&mut self, outcome: InvokeOutcome)
        requires
            old(self).wf(),
            old(self).phase() == ChainPhase::Invoking,
        ensures
            final(self).wf(),
            outcome == InvokeOutcome::ExitSuccess ==> final(self).tool_count() == old(
                self,
            ).tool_count() && final(self).position() == old(self).position() && final(self).phase()
                == ChainPhase::Succeeded,
            outcome == InvokeOutcome::SpawnError ==> final(self).tool_count() == old(
                self,
            ).tool_count() && final(self).position() == old(self).position() && final(self).phase()
                == ChainPhase::SpawnFailed,
            outcome == InvokeOutcome::ExitFailure ==> advanced_past(*old(self), *final(self)),
    {
        match outcome {
            InvokeOutcome::ExitSuccess => {
                self.phase = ChainPhase::Succeeded;
            },
            InvokeOutcome::SpawnError => {
                self.phase = ChainPhase::SpawnFailed;
            },
            InvokeOutcome::ExitFailure => {
                self.position = self.position + 1;
                self.phase = if self.position < self.tool_count {
                    ChainPhase::Probing
                } else {
                    ChainPhase::Exhausted
                };
            },
        }
    }
}

/// How one candidate behaves when a chain run is planned from known
/// behaviour: absent from the search path, present but exiting non-zero, or
/// present and exiting zero.
#[derive(Clone, Copy, PartialEq, Eq, Structural, Debug)]
pub enum ToolBehavior {
    Absent,
    Fails,
    Succeeds,
}

/// What a full run of the fallback chain did: which candidates were probed,
/// which were invoked, and which one (if any) delivered the capture.
pub struct DispatchReport {
    pub probed: Vec<usize>,
    pub invoked: Vec<usize>,
    pub winner: Option<usize>,
}

/// How far a run over `behavior` probes: up to and including the winner, or
/// through the whole list when no candidate succeeds before then.
pub open spec fn probe_extent(behavior: Seq<ToolBehavior>, winner: Option<usize>) -> int {
    match winner {
        Option::Some(w) => w as int + 1,
        Option::None => behavior.len() as int,
    }
}

/// Ranking that shrinks along every step of the chain.
spec fn chain_progress(chain: FallbackChain) -> int {
    match chain.phase() {
        ChainPhase::Probing => 2,
        ChainPhase::Invoking => 1,
        ChainPhase::Succeeded => 0,
        ChainPhase::SpawnFailed => 0,
        ChainPhase::Exhausted => 0,
    }
}

/// Runs the fallback chain against candidates of known behaviour and reports
/// the whole run: candidates are probed in order and only until one wins;
/// exactly the present candidates among the probed ones are invoked, each
/// once, in order; the winner is the first candidate that is present and
/// succeeds, and with no such candidate there is none.
pub fn dispatch_plan(behavior: &Vec<ToolBehavior>) -> (report: DispatchReport)
    ensures
        match report.winner {
            Option::Some(w) => w < behavior@.len() && behavior@[w as int] == ToolBehavior::Succeeds
                && forall|j: int| 0 <= j < w ==> behavior@[j] != ToolBehavior::Succeeds,
            Option::None => forall|j: int|
                0 <= j < behavior@.len() ==> behavior@[j] != ToolBehavior::Succeeds,
        },
        report.probed@.len() == probe_extent(behavior@, report.winner),
        forall|j: int| 0 <= j < report.probed@.len() ==> report.probed@[j] as int == j,
        forall|j1: int, j2: int|
            0 <= j1 < j2 < report.invoked@.len() ==> report.invoked@[j1] < report.invoked@[j2],
        forall|t: int|
            0 <= t < behavior@.len() ==> (report.invoked@.contains(t as usize) <==> (behavior@[t]
                != ToolBehavior::Absent && t < probe_extent(behavior@, report.winner))),
        forall|j: int| 0 <= j < report.invoked@.len() ==> (report.invoked@[j] as int) < behavior@.len(),
{
    let n = behavior.len();
    let mut chain = FallbackChain::new(n);
    let mut probed: Vec<usize> = Vec::new();
    let mut invoked: Vec<usize> = Vec::new();
    while !chain.is_done()
        invariant
            chain.wf(),
            chain.tool_count() == behavior@.len(),
            chain.phase() != ChainPhase::SpawnFailed,
            chain.phase() == ChainPhase::Exhausted ==> chain.position() == behavior@.len(),
            probed@.len() == match chain.phase() {
                ChainPhase::Probing => chain.position(),
                ChainPhase::Exhausted => chain.position(),
                _ => chain.position() + 1,
            },
            forall|j: int| 0 <= j < probed@.len() ==> probed@[j] as int == j,
            forall|j1: int, j2: int|
                0 <= j1 < j2 < invoked@.len() ==> invoked@[j1] < invoked@[j2],
            forall|j: int| 0 <= j < invoked@.len() ==> (invoked@[j] as int) < ({
                match chain.phase() {
                    ChainPhase::Succeeded => chain.position() + 1,
                    _ => chain.position(),
                }
            }),
            forall|t: int|
                0 <= t < behavior@.len() ==> (invoked@.contains(t as usize) <==> (behavior@[t]
                    != ToolBehavior::Absent && t < ({
                    match chain.phase() {
                        ChainPhase::Succeeded => chain.position() + 1,
                        _ => chain.position(),
                    }
                }))),
            forall|j: int| 0 <= j < chain.position() ==> behavior@[j] != ToolBehavior::Succeeds,
            chain.phase() == ChainPhase::Invoking ==> behavior@[chain.position()]
                != ToolBehavior::Absent,
            chain.phase() == ChainPhase::Succeeded ==> behavior@[chain.position()]
                == ToolBehavior::Succeeds,
        decreases behavior@.len() - chain.position(), chain_progress(chain),
    {
        let phase = chain.phase_now();
        if phase == ChainPhase::Probing {
            let t = chain.position_now();
            probed.push(t);
            let present = behavior[t] != ToolBehavior::Absent;
            chain.on_probe(present);
        } else {
            let t = chain.position_now();
            let ghost pre_invoked: Seq<usize> = invoked@;
            invoked.push(t);
            let outcome = if behavior[t] == ToolBehavior::Succeeds {
                InvokeOutcome::ExitSuccess
            } else {
                InvokeOutcome::ExitFailure
            };
            chain.on_invoke(outcome);
            proof {
                let ghost limit = match chain.phase() {
                    ChainPhase::Succeeded => chain.position() + 1,
                    _ => chain.position(),
                };
                assert forall|tt: int|
                    0 <= tt < behavior@.len() implies (invoked@.contains(tt as usize) <==> (
                behavior@[tt] != ToolBehavior::Absent && tt < limit)) by {
                    if invoked@.contains(tt as usize) {
                        let j = choose|j: int|
                            0 <= j < invoked@.len() && invoked@[j] == tt as usize;
                        if j < invoked@.len() - 1 {
                            assert(pre_invoked[j] == tt as usize);
                            assert(pre_invoked.contains(tt as usize));
                        } else {
                            assert(tt == t as int);
                        }
                    }
                    if behavior@[tt] != ToolBehavior::Absent && tt < limit {
                        if tt < t as int {
                            assert(pre_invoked.contains(tt as usize));
                            let j = choose|j: int|
                                0 <= j < pre_invoked.len() && pre_invoked[j] == tt as usize;
                            assert(invoked@[j] == tt as usize);
                        } else {
                            assert(tt == t as int);
                            assert(invoked@[invoked@.len() - 1] == tt as usize);
                        }
                    }
                }
            }
        }
    }
    let winner = if chain.phase_now() == ChainPhase::Succeeded {
        Some(chain.position_now())
    } else {
        None
    };
    DispatchReport { probed, invoked, winner }
}

} // verus!
