use polyfjord3d::release::{
    installable_assets, installable_name, menu, parse_choice, release_url, Asset,
};
use polyfjord3d::text::decimal_string;

fn asset(name: &str) -> Asset {
    Asset { name: name.to_string(), download_url: format!("https://example.org/{}", name) }
}

fn names(assets: &Vec<Asset>) -> Vec<String> {
    let mut out = Vec::new();
    for asset in assets {
        out.push(asset.name.clone());
    }
    out
}

#[test]
fn release_url_names_the_latest_release_of_the_repository() {
    assert_eq!(
        release_url("colmap/colmap"),
        "https://api.github.com/repos/colmap/colmap/releases/latest"
    );
    assert_eq!(
        release_url("BtbN/FFmpeg-Builds"),
        "https://api.github.com/repos/BtbN/FFmpeg-Builds/releases/latest"
    );
}

#[test]
fn installable_names_hold_the_marker_and_end_with_zip() {
    assert!(installable_name("colmap-x64-windows-cuda.zip"));
    assert!(installable_name("ffmpeg-master-latest-win64-gpl.zip"));
    assert!(installable_name("win.zip"));
    assert!(!installable_name("colmap-x64-windows-cuda.tar.gz"));
    assert!(!installable_name("ffmpeg-master-latest-linux64-gpl.zip"));
    assert!(!installable_name("ffmpeg-master-latest-win64-gpl.zip.sha256"));
    assert!(!installable_name("WINDOWS.zip"));
    assert!(!installable_name(""));
}

#[test]
fn the_filter_keeps_the_installable_assets_in_order() {
    let assets = vec![
        asset("ffmpeg-linux64.tar.xz"),
        asset("ffmpeg-win64-gpl.zip"),
        asset("checksums.sha256"),
        asset("ffmpeg-winarm64-gpl.zip"),
        asset("ffmpeg-win64-lgpl.zip"),
    ];
    let picked = installable_assets(&assets);
    assert_eq!(
        names(&picked),
        vec!["ffmpeg-win64-gpl.zip", "ffmpeg-winarm64-gpl.zip", "ffmpeg-win64-lgpl.zip"]
    );
    assert_eq!(picked[0].download_url, "https://example.org/ffmpeg-win64-gpl.zip");
}

#[test]
fn the_filter_gives_the_same_answer_each_time() {
    let assets = vec![asset("b-win.zip"), asset("a-win.zip"), asset("c.zip"), asset("a-win.zip")];
    let first = installable_assets(&assets);
    let second = installable_assets(&assets);
    assert_eq!(first, second);
    assert_eq!(names(&first), vec!["b-win.zip", "a-win.zip", "a-win.zip"]);
}

#[test]
fn the_filter_of_nothing_installable_is_empty() {
    assert_eq!(installable_assets(&vec![asset("source.tar.gz"), asset("mac.zip")]), vec![]);
    assert_eq!(installable_assets(&Vec::new()), vec![]);
}

#[test]
fn the_menu_numbers_the_offers_from_one() {
    let offers = vec![asset("colmap-x64-windows-cuda.zip"), asset("colmap-x64-windows-nocuda.zip")];
    assert_eq!(
        menu(&offers),
        vec!["[1] colmap-x64-windows-cuda.zip", "[2] colmap-x64-windows-nocuda.zip"]
    );
    assert_eq!(menu(&Vec::new()), Vec::<String>::new());
}

#[test]
fn the_menu_counts_past_nine() {
    let mut offers = Vec::new();
    for i in 0..12 {
        offers.push(asset(&format!("win-{}.zip", i)));
    }
    let lines = menu(&offers);
    assert_eq!(lines[8], "[9] win-8.zip");
    assert_eq!(lines[9], "[10] win-9.zip");
    assert_eq!(lines[11], "[12] win-11.zip");
}

#[test]
fn a_choice_is_a_number_of_the_list() {
    assert_eq!(parse_choice("1", 3), Some(0));
    assert_eq!(parse_choice("2", 3), Some(1));
    assert_eq!(parse_choice("3", 3), Some(2));
    assert_eq!(parse_choice("12", 12), Some(11));
}

#[test]
fn a_choice_may_have_blanks_around_it() {
    assert_eq!(parse_choice("2\n", 3), Some(1));
    assert_eq!(parse_choice("  2\r\n", 3), Some(1));
    assert_eq!(parse_choice("\t3 ", 3), Some(2));
}

#[test]
fn a_choice_may_have_a_plus_and_leading_zeros() {
    assert_eq!(parse_choice("+2", 3), Some(1));
    assert_eq!(parse_choice("002", 3), Some(1));
    assert_eq!(parse_choice("+007", 9), Some(6));
}

#[test]
fn a_choice_outside_the_list_is_none() {
    assert_eq!(parse_choice("0", 3), None);
    assert_eq!(parse_choice("4", 3), None);
    assert_eq!(parse_choice("1", 0), None);
    assert_eq!(parse_choice("99999999999999999999999999999999999999999", 3), None);
}

#[test]
fn a_choice_that_is_no_number_is_none() {
    assert_eq!(parse_choice("", 3), None);
    assert_eq!(parse_choice("\n", 3), None);
    assert_eq!(parse_choice("two", 3), None);
    assert_eq!(parse_choice("2.", 3), None);
    assert_eq!(parse_choice("-1", 3), None);
    assert_eq!(parse_choice("+", 3), None);
    assert_eq!(parse_choice("++1", 3), None);
    assert_eq!(parse_choice("1 2", 3), None);
    assert_eq!(parse_choice("[1]", 3), None);
    assert_eq!(parse_choice("\u{661}", 3), None);
}

#[test]
fn a_choice_is_read_as_the_standard_library_reads_a_number() {
    for input in ["1", " 3 ", "+2", "0", "4", "x", "", "-2", "03", "3x", "+", "18446744073709551616"] {
        let expected = match input.trim().parse::<usize>() {
            Ok(n) if n > 0 && n <= 3 => Some(n - 1),
            _ => None,
        };
        assert_eq!(parse_choice(input, 3), expected, "{:?}", input);
    }
}

#[test]
fn the_number_of_the_menu_picks_its_offer() {
    for index in 0..25 {
        assert_eq!(parse_choice(&decimal_string(index + 1), 25), Some(index));
    }
    assert_eq!(parse_choice(&decimal_string(26), 25), None);
}
