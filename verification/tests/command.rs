use wifski::command::EncodeJob;
use wifski::command::build_encode_argv;
use wifski::command::build_palette_argv;
use wifski::options::ConversionOptions;
use wifski::options::LoopOption;
use wifski::options::ResizeOption;

#[test]
fn known_request_builds_exact_invocations() {
    let mut o = ConversionOptions::default();
    o.resize = ResizeOption::_50;
    o.fps = 10;
    o.quality = 90;
    o.loop_opt = LoopOption::Forever;
    o.speed_tenths = 10;
    let job = EncodeJob::new(&o, "in.mp4", "p.png", "out.gif");
    assert_eq!(
        job.palette_argv,
        vec![
            "ffmpeg",
            "-i",
            "in.mp4",
            "-vf",
            "fps=10,scale=iw*0.5:ih*0.5,setpts=PTS/1,palettegen=stats_mode=full",
            "-y",
            "p.png",
        ]
    );
    assert_eq!(
        job.encode_argv,
        vec![
            "ffmpeg",
            "-i",
            "in.mp4",
            "-i",
            "p.png",
            "-filter_complex",
            "[0:v]fps=10,scale=iw*0.5:ih*0.5,setpts=PTS/1[v];[v][1:v]paletteuse=dither=sierra2_4a",
            "-loop",
            "0",
            "-y",
            "out.gif",
        ]
    );
    assert_eq!(job.input_path, "in.mp4");
    assert_eq!(job.palette_path, "p.png");
    assert_eq!(job.output_path, "out.gif");
}

#[test]
fn loop_argument_presence_per_mode() {
    let mut o = ConversionOptions::default();

    o.loop_opt = LoopOption::Forever;
    let forever = build_encode_argv(&o, "a", "b", "c");
    let i = forever.iter().position(|s| s == "-loop").unwrap();
    assert_eq!(forever[i + 1], "0");

    o.loop_opt = LoopOption::Count(3);
    let count = build_encode_argv(&o, "a", "b", "c");
    let i = count.iter().position(|s| s == "-loop").unwrap();
    assert_eq!(count[i + 1], "3");

    o.loop_opt = LoopOption::Count(-5);
    let negative = build_encode_argv(&o, "a", "b", "c");
    let i = negative.iter().position(|s| s == "-loop").unwrap();
    assert_eq!(negative[i + 1], "-5");

    o.loop_opt = LoopOption::Bounce;
    let bounce = build_encode_argv(&o, "a", "b", "c");
    assert!(bounce.iter().all(|s| s != "-loop"));
}

#[test]
fn palette_pass_uses_filter_complex_only_for_bounce() {
    let mut o = ConversionOptions::default();
    let plain = build_palette_argv(&o, "a", "b");
    assert!(plain.contains(&"-vf".to_string()));
    assert!(!plain.contains(&"-filter_complex".to_string()));

    o.loop_opt = LoopOption::Bounce;
    let bounce = build_palette_argv(&o, "a", "b");
    assert!(bounce.contains(&"-filter_complex".to_string()));
    assert!(!bounce.contains(&"-vf".to_string()));
}

#[test]
fn rerun_with_fresh_names_changes_only_the_path_arguments() {
    let mut o = ConversionOptions::default();
    o.quality = 90;
    o.loop_opt = LoopOption::Count(2);
    let first = EncodeJob::new(&o, "in.mp4", "one-palette.png", "one.gif");
    let second = EncodeJob::new(&o, "in.mp4", "two-palette.png", "two.gif");

    assert_eq!(first.palette_argv.len(), second.palette_argv.len());
    let last = first.palette_argv.len() - 1;
    for i in 0..last {
        assert_eq!(first.palette_argv[i], second.palette_argv[i]);
    }
    assert_eq!(first.palette_argv[last], "one-palette.png");
    assert_eq!(second.palette_argv[last], "two-palette.png");

    assert_eq!(first.encode_argv.len(), second.encode_argv.len());
    let last = first.encode_argv.len() - 1;
    for i in 0..last {
        if i != 4 {
            assert_eq!(first.encode_argv[i], second.encode_argv[i]);
        }
    }
    assert_eq!(first.encode_argv[4], "one-palette.png");
    assert_eq!(first.encode_argv[last], "one.gif");
    assert_eq!(second.encode_argv[4], "two-palette.png");
    assert_eq!(second.encode_argv[last], "two.gif");
}

#[test]
fn both_passes_share_one_base_chain_in_bounce_mode() {
    let mut o = ConversionOptions::default();
    o.loop_opt = LoopOption::Bounce;
    o.start_time = Some("1".to_string());
    o.speed_tenths = 20;
    let (base, _) = wifski::filter::base_filter_chain(&o);
    let job = EncodeJob::new(&o, "in.mp4", "p.png", "out.gif");
    let palette_graph = &job.palette_argv[4];
    let encode_graph = &job.encode_argv[6];
    assert_eq!(palette_graph.matches(base.as_str()).count(), 1);
    assert_eq!(encode_graph.matches(base.as_str()).count(), 1);
    let split = ",split[a][b];[b]reverse[r];[a][r]concat=n=2:v=1:a=0";
    assert!(palette_graph.starts_with(&format!("[0:v]{}{}", base, split)));
    assert!(encode_graph.starts_with(&format!("[0:v]{}{}", base, split)));
}
