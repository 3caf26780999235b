//! The style sheet of a live wallpaper theme.
//!
//! Every rule is scoped to the theme root `:root[data-ct-theme="<id>"]`.
//! The two controls become CSS variables with two decimals:
//! `--ct-wallpaper-brightness` is brightness / 100 and
//! `--ct-interface-opacity` is (100 - transparency) / 100.

use vstd::prelude::*;

use crate::controls::{controls_valid, WallpaperControls};
use crate::text::{decimal, digit_char, push_char, u64_to_decimal};

verus! {

/// `v / 100` written with exactly two decimals (`{:.2}` of the quotient).
pub open spec fn hundredths(v: nat) -> Seq<char> {
    decimal(v / 100) + seq!['.', digit_char((v / 10) % 10), digit_char(v % 10)]
}

/// Appends `v / 100` with exactly two decimals.
pub fn push_hundredths(s: &mut String, v: u8)
    ensures
        final(s)@ == old(s)@ + hundredths(v as nat),
{
    let whole = u64_to_decimal((v / 100) as u64);
    s.append(whole.as_str());
    push_char(s, '.');
    let tens: u8 = (v / 10) % 10;
    let ones: u8 = v % 10;
    push_char(s, (0x30u8 + tens) as char);
    push_char(s, (0x30u8 + ones) as char);
    proof {
        assert(final(s)@ =~= old(s)@ + hundredths(v as nat));
    }
}

/// A rule scoped to the theme root: the root selector, then `body`, then a
/// line break.
pub open spec fn scoped_rule(theme_id: Seq<char>, body: Seq<char>) -> Seq<char> {
    ":root[data-ct-theme=\""@ + theme_id + "\"]"@ + body + "\n"@
}

fn push_scoped_rule(css: &mut String, theme_id: &str, body: &str)
    ensures
        final(css)@ == old(css)@ + scoped_rule(theme_id@, body@),
{
    css.append(":root[data-ct-theme=\"");
    css.append(theme_id);
    css.append("\"]");
    css.append(body);
    css.append("\n");
    proof {
        assert(final(css)@ =~= old(css)@ + scoped_rule(theme_id@, body@));
    }
}

/// The first rule: the two control variables.
pub open spec fn variables_rule(theme_id: Seq<char>, controls: WallpaperControls) -> Seq<char> {
    scoped_rule(
        theme_id,
        " { --ct-wallpaper-brightness: "@ + hundredths(controls.wallpaper_brightness as nat)
            + "; --ct-interface-opacity: "@ + hundredths(
            (100 - controls.interface_transparency) as nat,
        ) + "; }"@,
    )
}

/// The last rule: the control panel on small windows.
pub open spec fn small_window_rule(theme_id: Seq<char>) -> Seq<char> {
    "@media (max-width: 900px), (max-height: 700px) { :root[data-ct-theme=\""@ + theme_id
        + "\"] .ct-wallpaper-controls { right: 12px !important; bottom: 84px !important; } }"@
}

fn push_small_window_rule(css: &mut String, theme_id: &str)
    ensures
        final(css)@ == old(css)@ + small_window_rule(theme_id@),
{
    css.append("@media (max-width: 900px), (max-height: 700px) { :root[data-ct-theme=\"");
    css.append(theme_id);
    css.append("\"] .ct-wallpaper-controls { right: 12px !important; bottom: 84px !important; } }");
    proof {
        assert(final(css)@ =~= old(css)@ + small_window_rule(theme_id@));
    }
}

/// The first rules of the style sheet: the control variables, the
/// transparent shell, and the wallpaper media filtered by the brightness.
pub open spec fn wallpaper_css_head(theme_id: Seq<char>, controls: WallpaperControls) -> Seq<char> {
    variables_rule(theme_id, controls)
        + scoped_rule(theme_id, " [data-ct-slot=\"app.shell\"] { background: transparent !important; color: #f4f7ff; }"@)
        + scoped_rule(theme_id, " [data-ct-mount=\"app.background\"] > :where(img, video, iframe, canvas) { display: block !important; width: 100% !important; height: 100% !important; border: 0 !important; object-fit: cover !important; object-position: center !important; opacity: 1 !important; filter: brightness(var(--ct-wallpaper-brightness)) saturate(0.9); }"@)
}

/// The remaining rules of the style sheet: the surfaces, the sidebar and
/// the wallpaper control panel.
pub open spec fn wallpaper_css_tail(theme_id: Seq<char>) -> Seq<char> {
    scoped_rule(theme_id, " [data-ct-mount=\"home.hero\"] { display: none !important; }"@)
        + scoped_rule(theme_id, " :where([data-ct-slot=\"main\"], [data-ct-slot=\"page\"], [data-ct-slot=\"settings.canvas\"]) { background: rgb(7 10 17 / calc(var(--ct-interface-opacity) * 0.66)) !important; }"@)
        + scoped_rule(theme_id, "[data-ct-view=\"conversation\"] :where([data-ct-slot=\"main\"], [data-ct-slot=\"page\"], [data-ct-slot=\"main.content.frame\"]) { background: transparent !important; background-image: none !important; border-color: transparent !important; box-shadow: none !important; }"@)
        + scoped_rule(theme_id, " [data-ct-slot=\"sidebar\"] { background: rgb(8 11 18 / var(--ct-interface-opacity)) !important; }"@)
        + scoped_rule(theme_id, " :where([data-ct-slot=\"home.card\"], [data-ct-slot=\"composer\"], [data-ct-slot=\"settings.card\"], [data-ct-slot=\"conversation.banner\"]) { background: rgb(16 21 31 / calc(var(--ct-interface-opacity) * 0.94)) !important; border-color: rgb(255 255 255 / calc(var(--ct-interface-opacity) * 0.22)) !important; }"@)
        + scoped_rule(theme_id, " :where([data-ct-slot=\"home.card\"], [data-ct-slot=\"settings.card\"], [data-ct-slot=\"conversation.banner\"]) { box-shadow: 0 14px 36px rgb(0 0 0 / calc(var(--ct-interface-opacity) * 0.34)) !important; }"@)
        + scoped_rule(theme_id, " [data-ct-slot=\"composer\"] { box-shadow: none !important; }"@)
        + scoped_rule(theme_id, " .ct-wallpaper-controls { position: fixed !important; right: 20px !important; bottom: 104px !important; z-index: 2147483000 !important; width: 236px !important; color: #f7f8fc !important; font-size: 13px !important; line-height: 1.35 !important; pointer-events: auto !important; }"@)
        + scoped_rule(theme_id, " .ct-wallpaper-controls * { box-sizing: border-box !important; }"@)
        + scoped_rule(theme_id, " .ct-wallpaper-controls__panel { display: grid !important; gap: 11px !important; padding: 13px 14px !important; border: 1px solid rgb(255 255 255 / 16%) !important; border-radius: 14px !important; background: rgb(12 16 24 / 82%) !important; box-shadow: 0 14px 38px rgb(0 0 0 / 34%) !important; backdrop-filter: blur(18px) !important; -webkit-backdrop-filter: blur(18px) !important; }"@)
        + scoped_rule(theme_id, " .ct-wallpaper-controls__header { display: flex !important; align-items: center !important; justify-content: space-between !important; gap: 8px !important; }"@)
        + scoped_rule(theme_id, " .ct-wallpaper-controls__header strong { font-size: 13px !important; letter-spacing: .02em !important; }"@)
        + scoped_rule(theme_id, " .ct-wallpaper-controls__collapse { width: 26px !important; height: 26px !important; padding: 0 !important; border: 0 !important; border-radius: 8px !important; color: #f7f8fc !important; background: rgb(255 255 255 / 9%) !important; cursor: pointer !important; }"@)
        + scoped_rule(theme_id, " .ct-wallpaper-controls__field { display: grid !important; gap: 5px !important; }"@)
        + scoped_rule(theme_id, " .ct-wallpaper-controls__label { display: flex !important; justify-content: space-between !important; gap: 8px !important; color: rgb(247 248 252 / 86%) !important; }"@)
        + scoped_rule(theme_id, " .ct-wallpaper-controls__label output { color: #ffb340 !important; font-weight: 700 !important; }"@)
        + scoped_rule(theme_id, " .ct-wallpaper-controls__range { width: 100% !important; height: 18px !important; margin: 0 !important; padding: 0 !important; accent-color: #f2a93b !important; cursor: pointer !important; }"@)
        + scoped_rule(theme_id, " .ct-wallpaper-controls__playback { display: flex !important; align-items: center !important; justify-content: center !important; gap: 7px !important; width: 100% !important; min-height: 34px !important; padding: 7px 12px !important; border: 1px solid rgb(255 179 64 / 46%) !important; border-radius: 9px !important; color: #ffd28c !important; background: rgb(242 169 59 / 14%) !important; font-weight: 700 !important; cursor: pointer !important; transition: background-color 120ms ease, border-color 120ms ease !important; }"@)
        + scoped_rule(theme_id, " .ct-wallpaper-controls__playback:hover { border-color: rgb(255 179 64 / 72%) !important; background: rgb(242 169 59 / 24%) !important; }"@)
        + scoped_rule(theme_id, " .ct-wallpaper-controls__playback:focus-visible { outline: 2px solid #ffb340 !important; outline-offset: 2px !important; }"@)
        + scoped_rule(theme_id, " .ct-wallpaper-controls__playback-icon { display: inline-flex !important; align-items: center !important; justify-content: center !important; width: 16px !important; color: #ffb340 !important; font-size: 12px !important; line-height: 1 !important; }"@)
        + scoped_rule(theme_id, " .ct-wallpaper-controls__open { display: none !important; width: 48px !important; height: 48px !important; margin-left: auto !important; padding: 0 !important; border: 1px solid rgb(255 255 255 / 18%) !important; border-radius: 14px !important; color: #11151d !important; background: #f2a93b !important; box-shadow: 0 10px 28px rgb(0 0 0 / 30%) !important; font-weight: 800 !important; cursor: pointer !important; }"@)
        + scoped_rule(theme_id, " .ct-wallpaper-controls.ct-wallpaper-controls--collapsed { width: 48px !important; }"@)
        + scoped_rule(theme_id, " .ct-wallpaper-controls.ct-wallpaper-controls--collapsed .ct-wallpaper-controls__panel { display: none !important; }"@)
        + scoped_rule(theme_id, " .ct-wallpaper-controls.ct-wallpaper-controls--collapsed .ct-wallpaper-controls__open { display: block !important; }"@)
        + small_window_rule(theme_id)
}

/// The complete style sheet of the wallpaper theme `theme_id`.
pub open spec fn wallpaper_css(theme_id: Seq<char>, controls: WallpaperControls) -> Seq<char> {
    wallpaper_css_head(theme_id, controls) + wallpaper_css_tail(theme_id)
}

/// The style sheet of the wallpaper theme `theme_id`.
pub fn wallpaper_theme_css(theme_id: &str, controls: WallpaperControls) -> (css: String)
    requires
        controls_valid(controls),
    ensures
        css@ == wallpaper_css(theme_id@, controls),
{
    let mut head = String::new();
    head.append(" { --ct-wallpaper-brightness: ");
    push_hundredths(&mut head, controls.wallpaper_brightness);
    head.append("; --ct-interface-opacity: ");
    push_hundredths(&mut head, 100 - controls.interface_transparency);
    head.append("; }");
    let mut css = String::new();
    push_scoped_rule(&mut css, theme_id, head.as_str());
    proof {
        assert(css@ =~= variables_rule(theme_id@, controls));
    }
    push_scoped_rule(&mut css, theme_id, " [data-ct-slot=\"app.shell\"] { background: transparent !important; color: #f4f7ff; }");
    push_scoped_rule(&mut css, theme_id, " [data-ct-mount=\"app.background\"] > :where(img, video, iframe, canvas) { display: block !important; width: 100% !important; height: 100% !important; border: 0 !important; object-fit: cover !important; object-position: center !important; opacity: 1 !important; filter: brightness(var(--ct-wallpaper-brightness)) saturate(0.9); }");
    proof {
        assert(css@ =~= wallpaper_css_head(theme_id@, controls));
    }
    let mut rest = String::new();
    push_scoped_rule(&mut rest, theme_id, " [data-ct-mount=\"home.hero\"] { display: none !important; }");
    push_scoped_rule(&mut rest, theme_id, " :where([data-ct-slot=\"main\"], [data-ct-slot=\"page\"], [data-ct-slot=\"settings.canvas\"]) { background: rgb(7 10 17 / calc(var(--ct-interface-opacity) * 0.66)) !important; }");
    push_scoped_rule(&mut rest, theme_id, "[data-ct-view=\"conversation\"] :where([data-ct-slot=\"main\"], [data-ct-slot=\"page\"], [data-ct-slot=\"main.content.frame\"]) { background: transparent !important; background-image: none !important; border-color: transparent !important; box-shadow: none !important; }");
    push_scoped_rule(&mut rest, theme_id, " [data-ct-slot=\"sidebar\"] { background: rgb(8 11 18 / var(--ct-interface-opacity)) !important; }");
    push_scoped_rule(&mut rest, theme_id, " :where([data-ct-slot=\"home.card\"], [data-ct-slot=\"composer\"], [data-ct-slot=\"settings.card\"], [data-ct-slot=\"conversation.banner\"]) { background: rgb(16 21 31 / calc(var(--ct-interface-opacity) * 0.94)) !important; border-color: rgb(255 255 255 / calc(var(--ct-interface-opacity) * 0.22)) !important; }");
    push_scoped_rule(&mut rest, theme_id, " :where([data-ct-slot=\"home.card\"], [data-ct-slot=\"settings.card\"], [data-ct-slot=\"conversation.banner\"]) { box-shadow: 0 14px 36px rgb(0 0 0 / calc(var(--ct-interface-opacity) * 0.34)) !important; }");
    push_scoped_rule(&mut rest, theme_id, " [data-ct-slot=\"composer\"] { box-shadow: none !important; }");
    push_scoped_rule(&mut rest, theme_id, " .ct-wallpaper-controls { position: fixed !important; right: 20px !important; bottom: 104px !important; z-index: 2147483000 !important; width: 236px !important; color: #f7f8fc !important; font-size: 13px !important; line-height: 1.35 !important; pointer-events: auto !important; }");
    push_scoped_rule(&mut rest, theme_id, " .ct-wallpaper-controls * { box-sizing: border-box !important; }");
    push_scoped_rule(&mut rest, theme_id, " .ct-wallpaper-controls__panel { display: grid !important; gap: 11px !important; padding: 13px 14px !important; border: 1px solid rgb(255 255 255 / 16%) !important; border-radius: 14px !important; background: rgb(12 16 24 / 82%) !important; box-shadow: 0 14px 38px rgb(0 0 0 / 34%) !important; backdrop-filter: blur(18px) !important; -webkit-backdrop-filter: blur(18px) !important; }");
    push_scoped_rule(&mut rest, theme_id, " .ct-wallpaper-controls__header { display: flex !important; align-items: center !important; justify-content: space-between !important; gap: 8px !important; }");
    push_scoped_rule(&mut rest, theme_id, " .ct-wallpaper-controls__header strong { font-size: 13px !important; letter-spacing: .02em !important; }");
    push_scoped_rule(&mut rest, theme_id, " .ct-wallpaper-controls__collapse { width: 26px !important; height: 26px !important; padding: 0 !important; border: 0 !important; border-radius: 8px !important; color: #f7f8fc !important; background: rgb(255 255 255 / 9%) !important; cursor: pointer !important; }");
    push_scoped_rule(&mut rest, theme_id, " .ct-wallpaper-controls__field { display: grid !important; gap: 5px !important; }");
    push_scoped_rule(&mut rest, theme_id, " .ct-wallpaper-controls__label { display: flex !important; justify-content: space-between !important; gap: 8px !important; color: rgb(247 248 252 / 86%) !important; }");
    push_scoped_rule(&mut rest, theme_id, " .ct-wallpaper-controls__label output { color: #ffb340 !important; font-weight: 700 !important; }");
    push_scoped_rule(&mut rest, theme_id, " .ct-wallpaper-controls__range { width: 100% !important; height: 18px !important; margin: 0 !important; padding: 0 !important; accent-color: #f2a93b !important; cursor: pointer !important; }");
    push_scoped_rule(&mut rest, theme_id, " .ct-wallpaper-controls__playback { display: flex !important; align-items: center !important; justify-content: center !important; gap: 7px !important; width: 100% !important; min-height: 34px !important; padding: 7px 12px !important; border: 1px solid rgb(255 179 64 / 46%) !important; border-radius: 9px !important; color: #ffd28c !important; background: rgb(242 169 59 / 14%) !important; font-weight: 700 !important; cursor: pointer !important; transition: background-color 120ms ease, border-color 120ms ease !important; }");
    push_scoped_rule(&mut rest, theme_id, " .ct-wallpaper-controls__playback:hover { border-color: rgb(255 179 64 / 72%) !important; background: rgb(242 169 59 / 24%) !important; }");
    push_scoped_rule(&mut rest, theme_id, " .ct-wallpaper-controls__playback:focus-visible { outline: 2px solid #ffb340 !important; outline-offset: 2px !important; }");
    push_scoped_rule(&mut rest, theme_id, " .ct-wallpaper-controls__playback-icon { display: inline-flex !important; align-items: center !important; justify-content: center !important; width: 16px !important; color: #ffb340 !important; font-size: 12px !important; line-height: 1 !important; }");
    push_scoped_rule(&mut rest, theme_id, " .ct-wallpaper-controls__open { display: none !important; width: 48px !important; height: 48px !important; margin-left: auto !important; padding: 0 !important; border: 1px solid rgb(255 255 255 / 18%) !important; border-radius: 14px !important; color: #11151d !important; background: #f2a93b !important; box-shadow: 0 10px 28px rgb(0 0 0 / 30%) !important; font-weight: 800 !important; cursor: pointer !important; }");
    push_scoped_rule(&mut rest, theme_id, " .ct-wallpaper-controls.ct-wallpaper-controls--collapsed { width: 48px !important; }");
    push_scoped_rule(&mut rest, theme_id, " .ct-wallpaper-controls.ct-wallpaper-controls--collapsed .ct-wallpaper-controls__panel { display: none !important; }");
    push_scoped_rule(&mut rest, theme_id, " .ct-wallpaper-controls.ct-wallpaper-controls--collapsed .ct-wallpaper-controls__open { display: block !important; }");
    push_small_window_rule(&mut rest, theme_id);
    proof {
        assert(rest@ =~= wallpaper_css_tail(theme_id@));
    }
    css.append(rest.as_str());
    css
}

} // verus!

verus! {

/// `text` occurs in `s`.
pub open spec fn contains_text(s: Seq<char>, text: Seq<char>) -> bool {
    exists|k: int| 0 <= k && k + text.len() <= s.len() && #[trigger] s.subrange(k, k + text.len()) == text
}

/// The wallpaper is drawn at the brightness control: the style sheet sets
/// `--ct-wallpaper-brightness` to brightness / 100 with two decimals and
/// `--ct-interface-opacity` to (100 - transparency) / 100, and its rule for
/// the media of `app.background` filters them with
/// `brightness(var(--ct-wallpaper-brightness)) saturate(0.9)`.
pub proof fn law_wallpaper_follows_the_brightness_control(theme_id: Seq<char>, controls: WallpaperControls)
    ensures
        contains_text(
            wallpaper_css(theme_id, controls),
            ":root[data-ct-theme=\""@ + theme_id + "\"]"@ + " { --ct-wallpaper-brightness: "@
                + decimal((controls.wallpaper_brightness as nat) / 100) + seq![
                '.',
                digit_char(((controls.wallpaper_brightness as nat) / 10) % 10),
                digit_char((controls.wallpaper_brightness as nat) % 10),
            ] + "; --ct-interface-opacity: "@ + hundredths(
                (100 - controls.interface_transparency) as nat,
            ) + "; }"@ + "\n"@,
        ),
        contains_text(
            wallpaper_css(theme_id, controls),
            ":root[data-ct-theme=\""@ + theme_id + "\"]"@
                + " [data-ct-mount=\"app.background\"] > :where(img, video, iframe, canvas) { display: block !important; width: 100% !important; height: 100% !important; border: 0 !important; object-fit: cover !important; object-position: center !important; opacity: 1 !important; filter: brightness(var(--ct-wallpaper-brightness)) saturate(0.9); }"@
                + "\n"@,
        ),
{
    let head = wallpaper_css_head(theme_id, controls);
    let css = wallpaper_css(theme_id, controls);
    let v = variables_rule(theme_id, controls);
    let shell = scoped_rule(
        theme_id,
        " [data-ct-slot=\"app.shell\"] { background: transparent !important; color: #f4f7ff; }"@,
    );
    let bg = ":root[data-ct-theme=\""@ + theme_id + "\"]"@
        + " [data-ct-mount=\"app.background\"] > :where(img, video, iframe, canvas) { display: block !important; width: 100% !important; height: 100% !important; border: 0 !important; object-fit: cover !important; object-position: center !important; opacity: 1 !important; filter: brightness(var(--ct-wallpaper-brightness)) saturate(0.9); }"@
        + "\n"@;
    assert(head =~= v + shell + bg);
    let vt = ":root[data-ct-theme=\""@ + theme_id + "\"]"@ + " { --ct-wallpaper-brightness: "@
        + decimal((controls.wallpaper_brightness as nat) / 100) + seq![
        '.',
        digit_char(((controls.wallpaper_brightness as nat) / 10) % 10),
        digit_char((controls.wallpaper_brightness as nat) % 10),
    ] + "; --ct-interface-opacity: "@ + hundredths((100 - controls.interface_transparency) as nat)
        + "; }"@ + "\n"@;
    assert(v =~= vt);
    assert(css.subrange(0, v.len() as int) =~= v);
    assert(css.subrange(0, 0 + vt.len() as int) =~= vt);
    let k: int = (v.len() + shell.len()) as int;
    assert(css.subrange(k, k + bg.len() as int) =~= bg);
}

} // verus!
