//! Releases of a tool, the assets that can be installed from one, and the choice among them.
use crate::text::{
    all_digits, chars_of, contains, contains_text, decimal, decimal_string, digits_value,
    ends_with, ends_with_text, is_blank, is_digit, lemma_decimal_round_trip,
    lemma_digits_value_prefix, trim_bounds, trim_end, trim_start, trimmed,
};
use crate::tool::{words, Words};
use vstd::prelude::*;
use vstd::string::*;

verus! {

/// A tool that the pipeline depends on.
#[derive(Debug, PartialEq, Eq)]
pub struct ToolSpec {
    /// The name of the tool's executable, without suffix.
    pub logical_name: String,
    /// The repository whose releases hold the tool, as `owner/name`.
    pub release_repository_id: String,
    /// The directory below the tools directory into which the tool is installed.
    pub install_dir_name: String,
}

/// What a `ToolSpec` holds, as text.
pub struct ToolSpecView {
    pub logical_name: Seq<char>,
    pub release_repository_id: Seq<char>,
    pub install_dir_name: Seq<char>,
}

impl View for ToolSpec {
    type V = ToolSpecView;

    open spec fn view(&self) -> ToolSpecView {
        ToolSpecView {
            logical_name: self.logical_name@,
            release_repository_id: self.release_repository_id@,
            install_dir_name: self.install_dir_name@,
        }
    }
}

/// A file of a release.
#[derive(Debug, PartialEq, Eq)]
pub struct Asset {
    pub name: String,
    pub download_url: String,
}

/// What an `Asset` holds, as text.
pub struct AssetView {
    pub name: Seq<char>,
    pub download_url: Seq<char>,
}

impl View for Asset {
    type V = AssetView;

    open spec fn view(&self) -> AssetView {
        AssetView { name: self.name@, download_url: self.download_url@ }
    }
}

impl Clone for Asset {
    fn clone(&self) -> (out: Self)
        ensures
            out@ == self@,
    {
        Asset { name: self.name.clone(), download_url: self.download_url.clone() }
    }
}

/// The views of the assets of a vector, in order.
pub open spec fn asset_views(assets: Seq<Asset>) -> Seq<AssetView> {
    Seq::new(assets.len(), |i: int| assets[i]@)
}

/// A published release.
#[derive(Debug, PartialEq, Eq)]
pub struct Release {
    pub tag_name: String,
    pub assets: Vec<Asset>,
}

/// What a `Release` holds, as text.
pub struct ReleaseView {
    pub tag_name: Seq<char>,
    pub assets: Seq<AssetView>,
}

impl View for Release {
    type V = ReleaseView;

    open spec fn view(&self) -> ReleaseView {
        ReleaseView { tag_name: self.tag_name@, assets: asset_views(self.assets@) }
    }
}

/// Where the latest release of the repository `repo` is asked for.
pub open spec fn release_url_text(repo: Seq<char>) -> Seq<char> {
    "https://api.github.com/repos/"@ + repo + "/releases/latest"@
}

/// Where the latest release of the repository `repo` is asked for.
pub fn release_url(repo: &str) -> (out: String)
    ensures
        out@ == release_url_text(repo@),
{
    let mut out = String::from_str("https://api.github.com/repos/");
    out.append(repo);
    out.append("/releases/latest");
    out
}

/// A file of this name can be installed here: the name holds the platform's marker `win`
/// and ends with `.zip`.
pub open spec fn is_installable(name: Seq<char>) -> bool {
    contains_text(name, "win"@) && ends_with_text(name, ".zip"@)
}

/// The property by which assets are picked.
pub open spec fn installable_asset() -> spec_fn(AssetView) -> bool {
    |asset: AssetView| is_installable(asset.name)
}

/// The installable ones among `assets`, in the order of `assets`.
pub open spec fn installable(assets: Seq<AssetView>) -> Seq<AssetView> {
    assets.filter(installable_asset())
}

/// The filter keeps the order: what it picks from two lists put together is what it picks
/// from the first, followed by what it picks from the second.
pub proof fn lemma_installable_keeps_order(first: Seq<AssetView>, second: Seq<AssetView>)
    ensures
        installable(first + second) == installable(first) + installable(second),
{
    Seq::filter_distributes_over_add(first, second, installable_asset());
}

/// The filter picks exactly the installable assets: each one it returns is installable and
/// stood in the list, and each installable one of the list is returned.
pub proof fn lemma_installable_is_exact(assets: Seq<AssetView>, asset: AssetView)
    ensures
        installable(assets).contains(asset) <==> assets.contains(asset) && is_installable(
            asset.name,
        ),
{
    let picked = installable(assets);
    if picked.contains(asset) {
        let i = choose|i: int| 0 <= i < picked.len() && picked[i] == asset;
        assets.lemma_filter_pred(installable_asset(), i);
        assets.lemma_filter_contains_rev(installable_asset(), asset);
    }
    if assets.contains(asset) && is_installable(asset.name) {
        let i = choose|i: int| 0 <= i < assets.len() && assets[i] == asset;
        assets.lemma_filter_contains(installable_asset(), i);
    }
}

/// The filter on one asset more, and on none.
pub proof fn lemma_installable_push(assets: Seq<AssetView>, asset: AssetView)
    ensures
        installable(assets.push(asset)) == if is_installable(asset.name) {
            installable(assets).push(asset)
        } else {
            installable(assets)
        },
{
    reveal(Seq::filter);
    assert(assets.push(asset).drop_last() =~= assets);
}

/// Nothing is picked from no assets.
pub proof fn lemma_installable_empty()
    ensures
        installable(Seq::<AssetView>::empty()) == Seq::<AssetView>::empty(),
{
    reveal(Seq::filter);
}

/// Whether a file of this name can be installed here.
pub fn installable_name(name: &str) -> (out: bool)
    ensures
        out == is_installable(name@),
{
    contains(name, "win") && ends_with(name, ".zip")
}

/// The installable ones among `assets`, in the order of `assets`.
pub fn installable_assets(assets: &Vec<Asset>) -> (out: Vec<Asset>)
    ensures
        asset_views(out@) == installable(asset_views(assets@)),
{
    let mut out: Vec<Asset> = Vec::new();
    let ghost all = asset_views(assets@);
    proof {
        lemma_installable_empty();
        assert(all.take(0) =~= Seq::<AssetView>::empty());
        assert(asset_views(out@) =~= Seq::<AssetView>::empty());
    }
    let mut i: usize = 0;
    while i < assets.len()
        invariant
            i <= assets.len(),
            all == asset_views(assets@),
            asset_views(out@) == installable(all.take(i as int)),
        decreases assets.len() - i,
    {
        let asset = &assets[i];
        proof {
            lemma_installable_push(all.take(i as int), asset@);
            assert(all.take(i as int).push(asset@) =~= all.take(i + 1));
        }
        let ghost before = asset_views(out@);
        if installable_name(asset.name.as_str()) {
            out.push(asset.clone());
            assert(asset_views(out@) =~= before.push(asset@));
        }
        i = i + 1;
    }
    assert(all.take(assets.len() as int) =~= all);
    out
}

/// The line that offers the asset `name` under the ordinal `index + 1`.
pub open spec fn menu_line(index: nat, name: Seq<char>) -> Seq<char> {
    "["@ + decimal(index + 1) + "] "@ + name
}

/// The lines that offer `offers`, numbered from 1.
pub open spec fn menu_lines(offers: Seq<AssetView>) -> Words {
    Seq::new(offers.len(), |i: int| menu_line(i as nat, offers[i].name))
}

/// The lines that offer `offers`, numbered from 1.
pub fn menu(offers: &Vec<Asset>) -> (out: Vec<String>)
    ensures
        words(out@) == menu_lines(asset_views(offers@)),
{
    let mut out: Vec<String> = Vec::new();
    let mut i: usize = 0;
    while i < offers.len()
        invariant
            i <= offers.len(),
            out@.len() == i,
            forall|k: int| 0 <= k < i ==> out@[k]@ == menu_line(k as nat, offers@[k]@.name),
        decreases offers.len() - i,
    {
        let mut line = String::from_str("[");
        let number = decimal_string(i + 1);
        line.append(number.as_str());
        line.append("] ");
        line.append(offers[i].name.as_str());
        out.push(line);
        i = i + 1;
    }
    assert(words(out@) =~= menu_lines(asset_views(offers@)));
    out
}

/// `s` without one leading `+`.
pub open spec fn unsigned(s: Seq<char>) -> Seq<char> {
    if s.len() > 0 && s[0] == '+' {
        s.drop_first()
    } else {
        s
    }
}

/// The offer that the answer `input` picks among `count` offers, counted from 0: the
/// answer, without blanks around it, is a number from 1 to `count` in decimal digits, which
/// one `+` may precede. Any other answer picks nothing.
pub open spec fn choice_of(input: Seq<char>, count: nat) -> Option<nat> {
    let digits = unsigned(trimmed(input));
    if digits.len() > 0 && all_digits(digits) && 1 <= digits_value(digits) <= count {
        Some((digits_value(digits) - 1) as nat)
    } else {
        None
    }
}

/// The number that the menu shows beside an offer picks that offer: the answer that is the
/// ordinal of the offer at `index`, as the menu writes it, chooses `index`.
pub proof fn lemma_menu_number_picks_its_offer(index: nat, count: nat)
    requires
        index < count,
    ensures
        choice_of(decimal(index + 1), count) == Some(index),
{
    let number = decimal(index + 1);
    lemma_decimal_round_trip(index + 1);
    assert(is_digit(number[0]));
    assert(is_digit(number.last()));
    assert(!is_blank(number[0]));
    assert(!is_blank(number.last()));
    assert(trim_start(number) == number);
    assert(trim_end(number) == number);
    assert(unsigned(number) == number);
}

/// The offer that the answer `input` picks among `count` offers, counted from 0.
pub fn parse_choice(input: &str, count: usize) -> (out: Option<usize>)
    ensures
        out is Some == choice_of(input@, count as nat) is Some,
        out matches Some(index) ==> index == choice_of(input@, count as nat)->0,
        out matches Some(index) ==> index < count,
{
    let v = chars_of(input);
    let bounds = trim_bounds(&v);
    let to: usize = bounds.1;
    let from: usize = if bounds.0 < to && v[bounds.0] == '+' {
        bounds.0 + 1
    } else {
        bounds.0
    };
    let ghost digits = unsigned(trimmed(input@));
    assert(digits =~= v@.subrange(from as int, to as int));
    if from == to {
        return None;
    }
    let mut value: usize = 0;
    let mut i: usize = from;
    while i < to
        invariant
            from <= i <= to <= v.len(),
            digits == v@.subrange(from as int, to as int),
            digits == unsigned(trimmed(input@)),
            all_digits(digits.take(i - from)),
            value == digits_value(digits.take(i - from)),
            value <= count,
        decreases to - i,
    {
        let c: char = v[i];
        let ghost head = digits.take(i - from);
        let ghost next = digits.take(i - from + 1);
        proof {
            assert(digits[i - from] == c);
            assert(next.drop_last() =~= head);
            assert(next.last() == c);
        }
        if !('0' <= c && c <= '9') {
            assert(!is_digit(digits[i - from]));
            return None;
        }
        assert(all_digits(next)) by {
            assert forall|k: int| 0 <= k < next.len() implies is_digit(#[trigger] next[k]) by {
                if k < head.len() {
                    assert(next[k] == head[k]);
                }
            }
        }
        let d: u128 = (c as u32 - '0' as u32) as u128;
        let wide: u128 = value as u128 * 10 + d;
        assert(wide == digits_value(next));
        if wide > count as u128 {
            proof {
                if all_digits(digits) {
                    lemma_digits_value_prefix(digits, i - from + 1);
                }
            }
            return None;
        }
        value = wide as usize;
        i = i + 1;
    }
    assert(digits.take(to - from) =~= digits);
    if value >= 1 {
        Some(value - 1)
    } else {
        None
    }
}

} // verus!
