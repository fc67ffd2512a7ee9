use derivegr_gui::command::{
    command_line, out_dir_for, program, push_ifo_flags, text_or, RunForm,
};

fn form(event: &str, ifos: &str, out_dir: &str) -> RunForm {
    RunForm {
        event: event.to_string(),
        ifos: ifos.to_string(),
        tpad: "16".to_string(),
        flow: "30".to_string(),
        fhigh: "350".to_string(),
        gpu_device: 0,
        out_dir: out_dir.to_string(),
    }
}

#[test]
fn program_is_derivegr() {
    assert_eq!(program(), "derivegr");
}

#[test]
fn text_or_keeps_a_text_and_fills_an_empty_one() {
    assert_eq!(text_or("GW170817", "GW150914"), "GW170817");
    assert_eq!(text_or("", "GW150914"), "GW150914");
    assert_eq!(text_or(" ", "GW150914"), " ");
}

#[test]
fn out_dir_for_prefixes_outputs() {
    assert_eq!(out_dir_for("gw150914"), "outputs/gw150914");
    assert_eq!(out_dir_for(""), "outputs/");
}

#[test]
fn ifo_flags_pair_each_detector() {
    let mut args = vec!["x".to_string()];
    push_ifo_flags(&mut args, &vec!["H1".to_string(), "L1".to_string()]);
    assert_eq!(args, vec!["x", "--ifo", "H1", "--ifo", "L1"]);
    push_ifo_flags(&mut args, &Vec::new());
    assert_eq!(args, vec!["x", "--ifo", "H1", "--ifo", "L1"]);
}

#[test]
fn command_line_exact() {
    let args = command_line("GW150914", "H1 L1", "16", "30", "350", "outputs/gw150914", 0);
    assert_eq!(
        args,
        vec![
            "discover-inspiral",
            "--event",
            "GW150914",
            "--tpad",
            "16",
            "--flow",
            "30",
            "--fhigh",
            "350",
            "--out",
            "outputs/gw150914",
            "--gpu-device",
            "0",
            "--save-plots",
            "true",
            "--save-csv",
            "true",
            "--ifo",
            "H1",
            "--ifo",
            "L1",
        ]
    );
}

#[test]
fn command_line_without_detectors_has_the_fixed_flags_only() {
    let args = command_line("E", "  ", "0.5", "20.5", "1024", "o", -3);
    assert_eq!(args.len(), 17);
    assert_eq!(args[0], "discover-inspiral");
    assert_eq!(args[4], "0.5");
    assert_eq!(args[12], "-3");
    assert_eq!(args[16], "true");
}

#[test]
fn command_line_length_counts_two_per_detector() {
    let args = command_line("E", " H1  L1\tV1 K1 ", "1", "2", "3", "o", 8);
    assert_eq!(args.len(), 17 + 2 * 4);
    assert_eq!(&args[17..], &["--ifo", "H1", "--ifo", "L1", "--ifo", "V1", "--ifo", "K1"]);
}

#[test]
fn launch_fills_event_and_output_directory() {
    let l = form("", "H1 L1", "").launch();
    assert_eq!(l.out_dir, "outputs/gw150914");
    assert_eq!(l.args[2], "GW150914");
    assert_eq!(l.args[10], "outputs/gw150914");
    assert_eq!(l.args.len(), 21);
}

#[test]
fn launch_lowers_the_event_in_the_output_directory() {
    let l = form("GW170817", "V1", "").launch();
    assert_eq!(l.out_dir, "outputs/gw170817");
    assert_eq!(l.args[2], "GW170817");
    assert_eq!(l.args[10], "outputs/gw170817");
    assert_eq!(&l.args[17..], &["--ifo", "V1"]);
}

#[test]
fn launch_keeps_a_given_output_directory() {
    let l = form("GW170817", "", "Runs/Mine").launch();
    assert_eq!(l.out_dir, "Runs/Mine");
    assert_eq!(l.args[10], "Runs/Mine");
    assert_eq!(l.args.len(), 17);
}

#[test]
fn launch_does_not_fill_in_detectors() {
    let l = form("", "", "").launch();
    assert_eq!(l.args.len(), 17);
}

#[test]
fn event_name_defaults() {
    assert_eq!(form("", "", "").event_name(), "GW150914");
    assert_eq!(form("GW190521", "", "").event_name(), "GW190521");
}

#[test]
fn with_defaults_fills_event_and_detectors() {
    let f = form("", "", "").with_defaults();
    assert_eq!(f.event, "GW150914");
    assert_eq!(f.ifos, "H1 L1");
    assert_eq!(f.tpad, "16");
    assert_eq!(f.flow, "30");
    assert_eq!(f.fhigh, "350");
    assert_eq!(f.gpu_device, 0);
    assert_eq!(f.out_dir, "");
}

#[test]
fn with_defaults_keeps_what_is_given() {
    let mut g = form("GW170817", "V1", "out");
    g.gpu_device = 3;
    let f = g.with_defaults();
    assert_eq!(f.event, "GW170817");
    assert_eq!(f.ifos, "V1");
    assert_eq!(f.gpu_device, 3);
    assert_eq!(f.out_dir, "out");
}
