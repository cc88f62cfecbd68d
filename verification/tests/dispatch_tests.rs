use capture_trigger::dispatch::ChainPhase;
use capture_trigger::dispatch::FallbackChain;
use capture_trigger::dispatch::InvokeOutcome;
use capture_trigger::dispatch::ToolBehavior;
use capture_trigger::dispatch::dispatch_plan;
use capture_trigger::dispatch::fallback_tool_candidates;
use capture_trigger::dispatch::native_capture_command;
use capture_trigger::dispatch::script_host_capture_command;

#[test]
fn fallback_skips_absent_invokes_present_in_order() {
    // first two absent, third present but failing, fourth present and
    // succeeding: probes 1-4 in order, invokes only 3 and 4, succeeds via 4
    let behavior = vec![
        ToolBehavior::Absent,
        ToolBehavior::Absent,
        ToolBehavior::Fails,
        ToolBehavior::Succeeds,
        ToolBehavior::Fails,
    ];
    let report = dispatch_plan(&behavior);
    assert_eq!(report.probed, vec![0, 1, 2, 3]);
    assert_eq!(report.invoked, vec![2, 3]);
    assert_eq!(report.winner, Some(3));
}

#[test]
fn no_tool_present_probes_all_invokes_none() {
    let behavior = vec![ToolBehavior::Absent; 5];
    let report = dispatch_plan(&behavior);
    assert_eq!(report.probed, vec![0, 1, 2, 3, 4]);
    assert!(report.invoked.is_empty());
    assert_eq!(report.winner, None);
}

#[test]
fn first_tool_succeeding_stops_the_chain() {
    let behavior = vec![ToolBehavior::Succeeds, ToolBehavior::Succeeds, ToolBehavior::Absent];
    let report = dispatch_plan(&behavior);
    assert_eq!(report.probed, vec![0]);
    assert_eq!(report.invoked, vec![0]);
    assert_eq!(report.winner, Some(0));
}

#[test]
fn all_present_all_failing_exhausts_the_chain() {
    let behavior = vec![ToolBehavior::Fails; 3];
    let report = dispatch_plan(&behavior);
    assert_eq!(report.probed, vec![0, 1, 2]);
    assert_eq!(report.invoked, vec![0, 1, 2]);
    assert_eq!(report.winner, None);
}

#[test]
fn empty_candidate_list_is_exhausted_at_once() {
    let behavior: Vec<ToolBehavior> = Vec::new();
    let report = dispatch_plan(&behavior);
    assert!(report.probed.is_empty());
    assert!(report.invoked.is_empty());
    assert_eq!(report.winner, None);
}

#[test]
fn chain_machine_walks_probe_then_invoke() {
    let mut chain = FallbackChain::new(3);
    assert_eq!(chain.phase_now(), ChainPhase::Probing);
    assert_eq!(chain.position_now(), 0);
    chain.on_probe(false);
    assert_eq!(chain.phase_now(), ChainPhase::Probing);
    assert_eq!(chain.position_now(), 1);
    chain.on_probe(true);
    assert_eq!(chain.phase_now(), ChainPhase::Invoking);
    chain.on_invoke(InvokeOutcome::ExitFailure);
    assert_eq!(chain.phase_now(), ChainPhase::Probing);
    assert_eq!(chain.position_now(), 2);
    chain.on_probe(true);
    chain.on_invoke(InvokeOutcome::ExitSuccess);
    assert_eq!(chain.phase_now(), ChainPhase::Succeeded);
    assert_eq!(chain.position_now(), 2);
    assert!(chain.is_done());
}

#[test]
fn spawn_refusal_aborts_the_chain() {
    let mut chain = FallbackChain::new(2);
    chain.on_probe(true);
    chain.on_invoke(InvokeOutcome::SpawnError);
    assert_eq!(chain.phase_now(), ChainPhase::SpawnFailed);
    assert_eq!(chain.position_now(), 0);
    assert!(chain.is_done());
}

#[test]
fn exhausting_every_candidate_ends_the_chain() {
    let mut chain = FallbackChain::new(2);
    chain.on_probe(false);
    chain.on_probe(false);
    assert_eq!(chain.phase_now(), ChainPhase::Exhausted);
    assert!(chain.is_done());
}

#[test]
fn native_command_is_silent_whole_screen() {
    let cmd = native_capture_command("/tmp/shot.png");
    assert_eq!(cmd.program, "screencapture");
    assert_eq!(cmd.args, vec!["-x", "-S", "/tmp/shot.png"]);
}

#[test]
fn script_host_command_embeds_the_destination() {
    let cmd = script_host_capture_command("C:\\shots\\a.png");
    assert_eq!(cmd.program, "powershell");
    assert_eq!(cmd.args.len(), 2);
    assert_eq!(cmd.args[0], "-Command");
    let expected = format!(
        "Add-Type -AssemblyName System.Windows.Forms; Add-Type -AssemblyName System.Drawing; $bmp = New-Object System.Drawing.Bitmap([System.Windows.Forms.Screen]::PrimaryScreen.Bounds.Width, [System.Windows.Forms.Screen]::PrimaryScreen.Bounds.Height); $graphics = [System.Drawing.Graphics]::FromImage($bmp); $graphics.CopyFromScreen(0, 0, 0, 0, $bmp.Size); $bmp.Save('{}'); $graphics.Dispose(); $bmp.Dispose()",
        "C:\\shots\\a.png"
    );
    assert_eq!(cmd.args[1], expected);
}

#[test]
fn fallback_candidates_in_documented_order() {
    let tools = fallback_tool_candidates("/tmp/shot.png");
    let named: Vec<(String, Vec<String>)> =
        tools.into_iter().map(|t| (t.program, t.args)).collect();
    assert_eq!(
        named,
        vec![
            ("gnome-screenshot".to_string(), vec!["-f".to_string(), "/tmp/shot.png".to_string()]),
            ("scrot".to_string(), vec!["/tmp/shot.png".to_string()]),
            (
                "import".to_string(),
                vec!["-window".to_string(), "root".to_string(), "/tmp/shot.png".to_string()]
            ),
            (
                "spectacle".to_string(),
                vec![
                    "-b".to_string(),
                    "-n".to_string(),
                    "-o".to_string(),
                    "/tmp/shot.png".to_string()
                ]
            ),
            (
                "flameshot".to_string(),
                vec!["full".to_string(), "-p".to_string(), "/tmp/shot.png".to_string()]
            ),
        ]
    );
}
