use wifski::filter::base_filter_chain;
use wifski::filter::dither_option;
use wifski::filter::encode_graph;
use wifski::filter::palette_graph;
use wifski::options::ConversionOptions;
use wifski::options::LoopOption;
use wifski::options::ResizeOption;

fn chain_of(o: &ConversionOptions) -> String {
    let (c, _) = base_filter_chain(o);
    c
}

#[test]
fn default_chain_has_the_three_stages_in_order() {
    let o = ConversionOptions::default();
    let (c, trimmed) = base_filter_chain(&o);
    assert!(!trimmed);
    assert_eq!(c, "fps=8,scale=iw*0.75:ih*0.75,setpts=PTS/1");
    let stages: Vec<&str> = c.split(',').collect();
    assert_eq!(stages.len(), 3);
    assert!(stages[0].starts_with("fps="));
    assert!(stages[1].starts_with("scale="));
    assert!(stages[2].starts_with("setpts="));
}

#[test]
fn trimmed_chain_has_one_leading_trim_stage() {
    let mut o = ConversionOptions::default();
    o.start_time = Some("1".to_string());
    let (c, trimmed) = base_filter_chain(&o);
    assert!(trimmed);
    assert_eq!(
        c,
        "trim=start='1',fps=8,scale=iw*0.75:ih*0.75,setpts=(PTS-STARTPTS)/1"
    );
    let stages: Vec<&str> = c.split(',').collect();
    assert_eq!(stages.len(), 4);
    assert!(stages[0].starts_with("trim="));
}

#[test]
fn clamping_shows_in_the_chain() {
    let mut o = ConversionOptions::default();
    o.fps = 1;
    assert!(chain_of(&o).starts_with("fps=3,"));
    o.fps = 99;
    assert!(chain_of(&o).starts_with("fps=10,"));
    o.fps = 8;
    o.speed_tenths = 1;
    assert!(chain_of(&o).ends_with("setpts=PTS/0.5"));
    o.speed_tenths = 500;
    assert!(chain_of(&o).ends_with("setpts=PTS/5"));
}

#[test]
fn timestamp_stage_depends_on_trim_and_speed() {
    let mut o = ConversionOptions::default();
    o.speed_tenths = 20;
    assert!(chain_of(&o).ends_with("setpts=PTS/2"));
    o.start_time = Some("00:00:01".to_string());
    assert!(chain_of(&o).ends_with("setpts=(PTS-STARTPTS)/2"));
    o.speed_tenths = 15;
    assert!(chain_of(&o).ends_with("setpts=(PTS-STARTPTS)/1.5"));
}

#[test]
fn trim_stage_quotes_whichever_bounds_are_present() {
    let mut o = ConversionOptions::default();
    o.start_time = Some("00:00:01".to_string());
    o.end_time = Some("00:00:05".to_string());
    assert!(chain_of(&o).starts_with("trim=start='00:00:01':end='00:00:05',"));

    let mut only_end = ConversionOptions::default();
    only_end.end_time = Some("5".to_string());
    assert!(chain_of(&only_end).starts_with("trim=end='5',"));

    let mut empty_times = ConversionOptions::default();
    empty_times.start_time = Some("".to_string());
    empty_times.end_time = Some("".to_string());
    let (c, trimmed) = base_filter_chain(&empty_times);
    assert!(!trimmed);
    assert!(!c.contains("trim"));
}

#[test]
fn scale_expressions_per_resize() {
    assert_eq!(ResizeOption::_100.to_ffmpeg_scale(), "scale=iw:ih");
    assert_eq!(ResizeOption::_75.to_ffmpeg_scale(), "scale=iw*0.75:ih*0.75");
    assert_eq!(ResizeOption::_50.to_ffmpeg_scale(), "scale=iw*0.5:ih*0.5");
    assert_eq!(ResizeOption::_25.to_ffmpeg_scale(), "scale=iw*0.25:ih*0.25");
}

#[test]
fn dither_thresholds_take_the_lower_branch_on_boundaries() {
    assert_eq!(dither_option(86), "sierra2_4a");
    assert_eq!(dither_option(85), "bayer");
    assert_eq!(dither_option(61), "bayer");
    assert_eq!(dither_option(60), "none");
    assert_eq!(dither_option(100), "sierra2_4a");
    assert_eq!(dither_option(0), "none");
}

#[test]
fn bounce_graphs_apply_the_base_chain_once_before_the_split() {
    let mut o = ConversionOptions::default();
    o.loop_opt = LoopOption::Bounce;
    let base = chain_of(&o);
    assert_eq!(
        palette_graph(&o),
        format!(
            "[0:v]{},split[a][b];[b]reverse[r];[a][r]concat=n=2:v=1:a=0,palettegen=stats_mode=full",
            base
        )
    );
    assert_eq!(
        encode_graph(&o),
        format!(
            "[0:v]{},split[a][b];[b]reverse[r];[a][r]concat=n=2:v=1:a=0[v];[v][1:v]paletteuse=dither=bayer",
            base
        )
    );
    // The chain appears exactly once in each graph.
    assert_eq!(palette_graph(&o).matches(&base).count(), 1);
    assert_eq!(encode_graph(&o).matches(&base).count(), 1);
}

#[test]
fn plain_graphs_without_bounce() {
    let o = ConversionOptions::default();
    let base = chain_of(&o);
    assert_eq!(
        palette_graph(&o),
        format!("{},palettegen=stats_mode=full", base)
    );
    assert_eq!(
        encode_graph(&o),
        format!("[0:v]{}[v];[v][1:v]paletteuse=dither=bayer", base)
    );
    assert!(!palette_graph(&o).contains("split"));
    assert!(!encode_graph(&o).contains("reverse"));
}
