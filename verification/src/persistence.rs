//! What loading the settings file gives back of what saving it wrote.

use vstd::prelude::*;

use crate::config::{
    apply_entries, apply_entry, bool_text, config_entries, config_text, default_config, entries_of_lines,
    entry_of_line, entry_views, settings_valid, ConfigEntry, ConfigView,
};
use crate::saver::{name_views, official_savers, SaverCatalog};
use crate::scale::lemma_clamp_in_range_identity;
use crate::text::{
    all_digits, decimal_text, eq_ignore_ascii_case, find, is_digit, is_ws, lemma_decimal_text, lemma_find_char,
    lemma_split_join, lemma_trim_stable, occurs_at, parse_bool, parse_unsigned, split, starts_with, trim, trim_ws,
    CharClass,
};

verus! {

broadcast use vstd::string::group_string_axioms;

/// The saver as the file names it.
pub open spec fn saver_word(c: ConfigView) -> Seq<char> {
    match c.active_saver {
        Some(n) => n,
        None => "none"@,
    }
}

/// The render scale as the file gives it.
pub open spec fn scale_word(c: ConfigView, scale_decimal: Seq<char>) -> Seq<char> {
    match c.render_scale {
        Some(_) => scale_decimal,
        None => "null"@,
    }
}

/// The lines of the saved file.
pub open spec fn saved_lines(c: ConfigView, sd: Seq<char>) -> Seq<Seq<char>> {
    seq![
        "# local76 themes and settings"@,
        "accent_color: \"#00BFFF\""@,
        "# dark_mode is auto-detected from system"@,
        "idle_timeout_mins: "@ + decimal_text(c.idle_timeout_mins as nat),
        "theme_idx: 0"@,
        "active_saver: \""@ + saver_word(c) + "\""@,
        "idle_enabled: "@ + bool_text(c.idle_enabled),
        "gpu_enabled: false"@,
        "show_fps_overlay: "@ + bool_text(c.show_fps_overlay),
        "render_scale: "@ + scale_word(c, sd),
        Seq::<char>::empty(),
    ]
}

proof fn lemma_concat_lacks(a: Seq<char>, b: Seq<char>, x: char)
    requires
        !a.contains(x),
        !b.contains(x),
    ensures
        !(a + b).contains(x),
{
    if (a + b).contains(x) {
        let k = choose|k: int| 0 <= k < (a + b).len() && (a + b)[k] == x;
        if k < a.len() {
            assert(a[k] == x);
        } else {
            assert(b[k - a.len()] == x);
        }
    }
}

proof fn lemma_digits_lack_newline(d: Seq<char>)
    requires
        all_digits(d),
    ensures
        !d.contains('\n'),
        forall|k: int| 0 <= k < d.len() ==> !is_ws(#[trigger] d[k]),
{
    if d.contains('\n') {
        let k = choose|k: int| 0 <= k < d.len() && d[k] == '\n';
        assert(is_digit(d[k]));
    }
    assert forall|k: int| 0 <= k < d.len() implies !is_ws(#[trigger] d[k]) by {
        assert(is_digit(d[k]));
    }
}

/// The saver name and the decimal scale can be written on one line.
pub open spec fn writable(c: ConfigView, sd: Seq<char>) -> bool {
    &&& !saver_word(c).contains('\n')
    &&& !scale_word(c, sd).contains('\n')
}

/// The first `k + 1` saved lines, joined by line feeds.
pub open spec fn first_lines(ls: Seq<Seq<char>>, k: int) -> Seq<char>
    decreases k,
{
    if k <= 0 {
        ls[0]
    } else {
        first_lines(ls, k - 1) + seq!['\n'] + ls[k]
    }
}

proof fn lemma_head_chunk()
    ensures
        "# local76 themes and settings\naccent_color: \"#00BFFF\"\n# dark_mode is auto-detected from system\nidle_timeout_mins: "@
            == "# local76 themes and settings"@ + seq!['\n'] + "accent_color: \"#00BFFF\""@ + seq!['\n']
            + "# dark_mode is auto-detected from system"@ + seq!['\n'] + "idle_timeout_mins: "@,
{
    reveal_strlit("# local76 themes and settings\naccent_color: \"#00BFFF\"\n# dark_mode is auto-detected from system\nidle_timeout_mins: ");
    reveal_strlit("# local76 themes and settings");
    reveal_strlit("accent_color: \"#00BFFF\"");
    reveal_strlit("# dark_mode is auto-detected from system");
    reveal_strlit("idle_timeout_mins: ");
    assert("# local76 themes and settings\naccent_color: \"#00BFFF\"\n# dark_mode is auto-detected from system\nidle_timeout_mins: "@
        =~= "# local76 themes and settings"@ + seq!['\n'] + "accent_color: \"#00BFFF\""@ + seq!['\n']
        + "# dark_mode is auto-detected from system"@ + seq!['\n'] + "idle_timeout_mins: "@);
}

proof fn lemma_middle_chunks()
    ensures
        "\ntheme_idx: 0\nactive_saver: \""@ == seq!['\n'] + "theme_idx: 0"@ + seq!['\n'] + "active_saver: \""@,
        "\"\nidle_enabled: "@ == "\""@ + seq!['\n'] + "idle_enabled: "@,
        "\ngpu_enabled: false\nshow_fps_overlay: "@ == seq!['\n'] + "gpu_enabled: false"@ + seq!['\n']
            + "show_fps_overlay: "@,
        "\nrender_scale: "@ == seq!['\n'] + "render_scale: "@,
        "\n"@ == seq!['\n'],
{
    reveal_strlit("\ntheme_idx: 0\nactive_saver: \"");
    reveal_strlit("theme_idx: 0");
    reveal_strlit("active_saver: \"");
    assert("\ntheme_idx: 0\nactive_saver: \""@ =~= seq!['\n'] + "theme_idx: 0"@ + seq!['\n'] + "active_saver: \""@);
    reveal_strlit("\"\nidle_enabled: ");
    reveal_strlit("\"");
    reveal_strlit("idle_enabled: ");
    assert("\"\nidle_enabled: "@ =~= "\""@ + seq!['\n'] + "idle_enabled: "@);
    reveal_strlit("\ngpu_enabled: false\nshow_fps_overlay: ");
    reveal_strlit("gpu_enabled: false");
    reveal_strlit("show_fps_overlay: ");
    assert("\ngpu_enabled: false\nshow_fps_overlay: "@ =~= seq!['\n'] + "gpu_enabled: false"@ + seq!['\n']
        + "show_fps_overlay: "@);
    reveal_strlit("\nrender_scale: ");
    reveal_strlit("render_scale: ");
    assert("\nrender_scale: "@ =~= seq!['\n'] + "render_scale: "@);
    reveal_strlit("\n");
    assert("\n"@ =~= seq!['\n']);
}

proof fn lemma_saved_text_shape(c: ConfigView, sd: Seq<char>)
    ensures
        config_text(c, sd) == first_lines(saved_lines(c, sd), 9) + seq!['\n'],
{
    lemma_head_chunk();
    lemma_middle_chunks();
    let ls = saved_lines(c, sd);
    let nl = seq!['\n'];
    let dec = decimal_text(c.idle_timeout_mins as nat);
    let w = saver_word(c);
    let sw = scale_word(c, sd);
    let t2 = first_lines(ls, 2);
    assert(first_lines(ls, 0) == ls[0]);
    assert(first_lines(ls, 1) == ls[0] + nl + ls[1]);
    assert(t2 == ls[0] + nl + ls[1] + nl + ls[2]);
    let a = "# local76 themes and settings\naccent_color: \"#00BFFF\"\n# dark_mode is auto-detected from system\nidle_timeout_mins: "@;
    // header and timeout line
    let x3 = a + dec;
    assert(first_lines(ls, 3) == t2 + nl + ls[3]);
    assert(x3 =~= first_lines(ls, 3));
    // theme and saver lines
    let x5 = x3 + "\ntheme_idx: 0\nactive_saver: \""@ + w + "\"\nidle_enabled: "@;
    assert(first_lines(ls, 4) == first_lines(ls, 3) + nl + ls[4]);
    assert(first_lines(ls, 5) == first_lines(ls, 4) + nl + ls[5]);
    assert(x5 =~= first_lines(ls, 5) + nl + "idle_enabled: "@);
    // enabled, gpu and fps lines
    let x8 = x5 + bool_text(c.idle_enabled) + "\ngpu_enabled: false\nshow_fps_overlay: "@ + bool_text(c.show_fps_overlay);
    assert(first_lines(ls, 6) == first_lines(ls, 5) + nl + ls[6]);
    assert(first_lines(ls, 7) == first_lines(ls, 6) + nl + ls[7]);
    assert(first_lines(ls, 8) == first_lines(ls, 7) + nl + ls[8]);
    assert(x8 =~= first_lines(ls, 8));
    // scale line
    let x9 = x8 + "\nrender_scale: "@ + sw + "\n"@;
    assert(first_lines(ls, 9) == first_lines(ls, 8) + nl + ls[9]);
    assert(x9 =~= first_lines(ls, 9) + nl);
    assert(config_text(c, sd) == x9);
}

proof fn lemma_saved_lines_lack_newline(c: ConfigView, sd: Seq<char>, i: int)
    requires
        writable(c, sd),
        0 <= i < 10,
    ensures
        !saved_lines(c, sd)[i].contains('\n'),
{
    let ls = saved_lines(c, sd);
    if i == 0 {
        reveal_strlit("# local76 themes and settings");
    } else if i == 1 {
        reveal_strlit("accent_color: \"#00BFFF\"");
    } else if i == 2 {
        reveal_strlit("# dark_mode is auto-detected from system");
    } else if i == 3 {
        reveal_strlit("idle_timeout_mins: ");
        lemma_decimal_text(c.idle_timeout_mins as nat);
        lemma_digits_lack_newline(decimal_text(c.idle_timeout_mins as nat));
        lemma_concat_lacks("idle_timeout_mins: "@, decimal_text(c.idle_timeout_mins as nat), '\n');
    } else if i == 4 {
        reveal_strlit("theme_idx: 0");
    } else if i == 5 {
        reveal_strlit("active_saver: \"");
        reveal_strlit("\"");
        lemma_concat_lacks("active_saver: \""@, saver_word(c), '\n');
        lemma_concat_lacks("active_saver: \""@ + saver_word(c), "\""@, '\n');
    } else if i == 6 {
        reveal_strlit("idle_enabled: ");
        reveal_strlit("true");
        reveal_strlit("false");
        lemma_concat_lacks("idle_enabled: "@, bool_text(c.idle_enabled), '\n');
    } else if i == 7 {
        reveal_strlit("gpu_enabled: false");
    } else if i == 8 {
        reveal_strlit("show_fps_overlay: ");
        reveal_strlit("true");
        reveal_strlit("false");
        lemma_concat_lacks("show_fps_overlay: "@, bool_text(c.show_fps_overlay), '\n');
    } else {
        reveal_strlit("render_scale: ");
        lemma_concat_lacks("render_scale: "@, scale_word(c, sd), '\n');
    }
}

/// Pieces after a separator, the last one without it: the pieces before, then it.
proof fn lemma_split_append(t: Seq<char>, sep: char, l: Seq<char>)
    requires
        !l.contains(sep),
    ensures
        split(t + seq![sep] + l, sep) == split(t, sep).push(l),
    decreases l.len(),
{
    let s = t + seq![sep] + l;
    if l.len() == 0 {
        assert(s.drop_last() =~= t);
        assert(l =~= Seq::<char>::empty());
    } else {
        assert(!l.drop_last().contains(sep)) by {
            if l.drop_last().contains(sep) {
                let k = choose|k: int| 0 <= k < l.drop_last().len() && l.drop_last()[k] == sep;
                assert(l[k] == sep);
            }
        }
        lemma_split_append(t, sep, l.drop_last());
        assert(s.drop_last() =~= t + seq![sep] + l.drop_last());
        assert(l.last() != sep) by {
            assert(l[l.len() - 1] == l.last());
        }
        assert(l.drop_last().push(l.last()) =~= l);
        assert(split(s, sep) =~= split(t, sep).push(l));
    }
}

proof fn lemma_split_first_lines(ls: Seq<Seq<char>>, k: int)
    requires
        0 <= k < ls.len(),
        forall|i: int| 0 <= i <= k ==> !(#[trigger] ls[i]).contains('\n'),
    ensures
        split(first_lines(ls, k), '\n') == ls.take(k + 1),
    decreases k,
{
    if k == 0 {
        crate::text::lemma_split_no_sep(ls[0], '\n');
        assert(ls.take(1) =~= seq![ls[0]]);
    } else {
        lemma_split_first_lines(ls, k - 1);
        lemma_split_append(first_lines(ls, k - 1), '\n', ls[k]);
        assert(ls.take(k + 1) =~= ls.take(k).push(ls[k]));
    }
}

proof fn lemma_saved_text_lines(c: ConfigView, sd: Seq<char>)
    requires
        writable(c, sd),
    ensures
        split(config_text(c, sd), '\n') == saved_lines(c, sd),
{
    let ls = saved_lines(c, sd);
    lemma_saved_text_shape(c, sd);
    assert forall|k: int| 0 <= k <= 9 implies !(#[trigger] ls[k]).contains('\n') by {
        lemma_saved_lines_lack_newline(c, sd, k);
    }
    lemma_split_first_lines(ls, 9);
    assert(!Seq::<char>::empty().contains('\n'));
    lemma_split_append(first_lines(ls, 9), '\n', Seq::<char>::empty());
    assert(first_lines(ls, 9) + seq!['\n'] + Seq::<char>::empty() =~= first_lines(ls, 9) + seq!['\n']);
    assert(ls.take(10).push(Seq::<char>::empty()) =~= ls);
}

/// `trim_matches('"')` then `trim_matches('\'')`, as the loader strips a value.
pub open spec fn unquoted(v: Seq<char>) -> Seq<char> {
    trim(trim(v, CharClass::Only('"')), CharClass::Only('\''))
}

/// A setting line `key: value` reads as that key and the unquoted value.
proof fn lemma_setting_line(key: Seq<char>, v: Seq<char>)
    requires
        key.len() > 0,
        v.len() > 0,
        !key.contains(':'),
        !is_ws(key[0]),
        key[0] != '#',
        !is_ws(key.last()),
        !is_ws(v[0]),
        !is_ws(v.last()),
    ensures
        entry_of_line(key + ": "@ + v) == Some((key, unquoted(v))),
{
    reveal_strlit(": ");
    reveal_strlit("#");
    reveal_strlit(":");
    let line = key + ": "@ + v;
    assert(line[0] == key[0]);
    assert(line.last() == v.last());
    lemma_trim_stable(line, CharClass::Whitespace);
    assert(!starts_with(line, "#"@)) by {
        if starts_with(line, "#"@) {
            assert(line.subrange(0, 1)[0] == line[0]);
        }
    }
    assert(":"@ == seq![':']);
    assert forall|k: int| 0 <= k < key.len() implies line[k] != ':' by {
        assert(line[k] == key[k]);
        if key[k] == ':' {
            assert(key.contains(':'));
        }
    }
    lemma_find_char(line, ':', key.len() as int, 0);
    assert(find(line, ":"@) == Some(key.len() as int));
    assert(line.take(key.len() as int) =~= key);
    lemma_trim_stable(key, CharClass::Whitespace);
    let rest = line.subrange(key.len() as int + 1, line.len() as int);
    assert(rest =~= seq![' '] + v);
    assert(rest.drop_first() =~= v);
    lemma_trim_stable(v, CharClass::Whitespace);
    assert(crate::text::trim_start(rest, CharClass::Whitespace) == crate::text::trim_start(v, CharClass::Whitespace));
    assert(trim_ws(rest) == v);
}

/// The settings the saved file holds, as the loader reads them.
pub open spec fn saved_entries(c: ConfigView, sd: Seq<char>) -> Seq<(Seq<char>, Seq<char>)> {
    seq![
        ("accent_color"@, unquoted("\"#00BFFF\""@)),
        ("idle_timeout_mins"@, unquoted(decimal_text(c.idle_timeout_mins as nat))),
        ("theme_idx"@, unquoted("0"@)),
        ("active_saver"@, unquoted("\""@ + saver_word(c) + "\""@)),
        ("idle_enabled"@, unquoted(bool_text(c.idle_enabled))),
        ("gpu_enabled"@, unquoted("false"@)),
        ("show_fps_overlay"@, unquoted(bool_text(c.show_fps_overlay))),
        ("render_scale"@, unquoted(scale_word(c, sd))),
    ]
}

/// A decimal scale: digits and points, at least one character.
pub open spec fn decimal_scale(sd: Seq<char>) -> bool {
    sd.len() > 0 && forall|k: int| 0 <= k < sd.len() ==> is_digit(#[trigger] sd[k]) || sd[k] == '.'
}

proof fn lemma_comment_line(l: Seq<char>)
    requires
        l.len() > 0,
        l[0] == '#',
        !is_ws(l.last()),
    ensures
        entry_of_line(l) is None,
{
    reveal_strlit("#");
    lemma_trim_stable(l, CharClass::Whitespace);
    assert(l.subrange(0, 1) =~= "#"@);
}

proof fn lemma_line_step(ls: Seq<Seq<char>>, k: int)
    requires
        0 <= k < ls.len(),
    ensures
        entries_of_lines(ls.take(k + 1)) == match entry_of_line(ls[k]) {
            Some(e) => entries_of_lines(ls.take(k)).push(e),
            None => entries_of_lines(ls.take(k)),
        },
{
    assert(ls.take(k + 1).drop_last() =~= ls.take(k));
    assert(ls.take(k + 1).last() == ls[k]);
}

#[verifier::rlimit(40)]
proof fn lemma_saved_entries(c: ConfigView, sd: Seq<char>)
    requires
        c.render_scale is Some ==> decimal_scale(sd),
    ensures
        entries_of_lines(saved_lines(c, sd)) == saved_entries(c, sd),
{
    let ls = saved_lines(c, sd);
    let es = saved_entries(c, sd);
    let dec = decimal_text(c.idle_timeout_mins as nat);
    lemma_decimal_text(c.idle_timeout_mins as nat);
    lemma_digits_lack_newline(dec);
    reveal_strlit("# local76 themes and settings");
    reveal_strlit("accent_color: \"#00BFFF\"");
    reveal_strlit("accent_color");
    reveal_strlit("\"#00BFFF\"");
    reveal_strlit("# dark_mode is auto-detected from system");
    reveal_strlit("idle_timeout_mins: ");
    reveal_strlit("idle_timeout_mins");
    reveal_strlit("theme_idx: 0");
    reveal_strlit("theme_idx");
    reveal_strlit("0");
    reveal_strlit("active_saver: \"");
    reveal_strlit("active_saver");
    reveal_strlit("\"");
    reveal_strlit("idle_enabled: ");
    reveal_strlit("idle_enabled");
    reveal_strlit("gpu_enabled: false");
    reveal_strlit("gpu_enabled");
    reveal_strlit("show_fps_overlay: ");
    reveal_strlit("show_fps_overlay");
    reveal_strlit("render_scale: ");
    reveal_strlit("render_scale");
    reveal_strlit("true");
    reveal_strlit("false");
    reveal_strlit("null");
    reveal_strlit(": ");
    assert(entries_of_lines(ls.take(0)) == Seq::<(Seq<char>, Seq<char>)>::empty());
    lemma_comment_line(ls[0]);
    lemma_line_step(ls, 0);
    assert("accent_color: \"#00BFFF\""@ =~= "accent_color"@ + ": "@ + "\"#00BFFF\""@);
    lemma_setting_line("accent_color"@, "\"#00BFFF\""@);
    lemma_line_step(ls, 1);
    lemma_comment_line(ls[2]);
    lemma_line_step(ls, 2);
    assert(ls[3] =~= "idle_timeout_mins"@ + ": "@ + dec);
    assert(!is_ws(dec[0]) && !is_ws(dec.last())) by {
        assert(dec.last() == dec[dec.len() - 1]);
    }
    lemma_setting_line("idle_timeout_mins"@, dec);
    lemma_line_step(ls, 3);
    assert(ls[4] =~= "theme_idx"@ + ": "@ + "0"@);
    lemma_setting_line("theme_idx"@, "0"@);
    lemma_line_step(ls, 4);
    let qw = "\""@ + saver_word(c) + "\""@;
    assert(ls[5] =~= "active_saver"@ + ": "@ + qw);
    assert(qw[0] == '"' && qw.last() == '"');
    lemma_setting_line("active_saver"@, qw);
    lemma_line_step(ls, 5);
    assert(ls[6] =~= "idle_enabled"@ + ": "@ + bool_text(c.idle_enabled));
    lemma_setting_line("idle_enabled"@, bool_text(c.idle_enabled));
    lemma_line_step(ls, 6);
    assert(ls[7] =~= "gpu_enabled"@ + ": "@ + "false"@);
    lemma_setting_line("gpu_enabled"@, "false"@);
    lemma_line_step(ls, 7);
    assert(ls[8] =~= "show_fps_overlay"@ + ": "@ + bool_text(c.show_fps_overlay));
    lemma_setting_line("show_fps_overlay"@, bool_text(c.show_fps_overlay));
    lemma_line_step(ls, 8);
    let sw = scale_word(c, sd);
    assert(ls[9] =~= "render_scale"@ + ": "@ + sw);
    assert(sw.len() > 0 && !is_ws(sw[0]) && !is_ws(sw.last())) by {
        if c.render_scale is Some {
            assert(is_digit(sd[0]) || sd[0] == '.');
            assert(is_digit(sd[sd.len() - 1]) || sd[sd.len() - 1] == '.');
        }
    }
    lemma_setting_line("render_scale"@, sw);
    lemma_line_step(ls, 9);
    assert(entry_of_line(ls[10]) is None) by {
        assert(trim_ws(ls[10]) =~= Seq::<char>::empty());
    }
    lemma_line_step(ls, 10);
    assert(ls.take(11) =~= ls);
    assert(entries_of_lines(ls) =~= es);
}

/// A saver name that the file's quoting leaves as it is: not empty, not `none`, on one
/// line, and neither starting nor ending with a quote.
pub open spec fn survives_quoting(n: Seq<char>) -> bool {
    &&& n.len() > 0
    &&& n != "none"@
    &&& !n.contains('\n')
    &&& n[0] != '"' && n[0] != '\''
    &&& n.last() != '"' && n.last() != '\''
}

proof fn lemma_unquoted_plain(v: Seq<char>)
    requires
        v.len() > 0,
        v[0] != '"' && v[0] != '\'',
        v.last() != '"' && v.last() != '\'',
    ensures
        unquoted(v) == v,
{
    lemma_trim_stable(v, CharClass::Only('"'));
    lemma_trim_stable(v, CharClass::Only('\''));
}

proof fn lemma_unquoted_quoted(n: Seq<char>)
    requires
        n.len() > 0,
        n[0] != '"' && n[0] != '\'',
        n.last() != '"' && n.last() != '\'',
    ensures
        unquoted("\""@ + n + "\""@) == n,
{
    reveal_strlit("\"");
    let q = "\""@ + n + "\""@;
    let cl = CharClass::Only('"');
    assert(q[0] == '"');
    assert(q.drop_first() =~= n + "\""@);
    assert((n + "\""@)[0] == n[0]);
    assert(crate::text::trim_start(q.drop_first(), cl) == n + "\""@);
    assert(crate::text::trim_start(q, cl) == n + "\""@);
    assert((n + "\""@).last() == '"');
    assert((n + "\""@).drop_last() =~= n);
    assert(crate::text::trim_end(n, cl) == n);
    assert(crate::text::trim_end(n + "\""@, cl) == n);
    lemma_trim_stable(n, CharClass::Only('\''));
}

proof fn lemma_apply_step(c: ConfigView, es: Seq<ConfigEntry>, k: int, catalog: SaverCatalog)
    requires
        0 <= k < es.len(),
    ensures
        apply_entries(c, es.take(k + 1), catalog) == apply_entry(
            apply_entries(c, es.take(k), catalog),
            es[k].key@,
            es[k].value@,
            es[k].scale,
            catalog,
        ),
{
    assert(es.take(k + 1).drop_last() =~= es.take(k));
    assert(es.take(k + 1).last() == es[k]);
}

/// Saving settings and loading the file back gives the same settings. The loader starts
/// from the defaults and applies the file's setting lines in order; every field comes
/// back, given valid settings, a saver name that the quoting leaves alone, a render scale
/// written as a decimal, and that decimal read back as the same scale.
#[verifier::rlimit(60)]
pub proof fn law_saved_settings_load_back(
    c: ConfigView,
    sd: Seq<char>,
    entries: Seq<ConfigEntry>,
    catalog: SaverCatalog,
)
    requires
        settings_valid(c, catalog),
        c.active_saver is Some ==> survives_quoting(c.active_saver->0),
        c.render_scale is Some ==> decimal_scale(sd),
        entry_views(entries) == config_entries(config_text(c, sd)),
        c.render_scale is Some ==> forall|i: int|
            0 <= i < entries.len() && (#[trigger] entries[i]).key@ == "render_scale"@ ==> entries[i].scale
                == c.render_scale,
    ensures
        apply_entries(default_config(), entries, catalog) == c,
{
    reveal_strlit("none");
    reveal_strlit("null");
    reveal_strlit("true");
    reveal_strlit("false");
    reveal_strlit("\"#00BFFF\"");
    reveal_strlit("0");
    reveal_strlit("accent_color");
    reveal_strlit("idle_timeout_mins");
    reveal_strlit("theme_idx");
    reveal_strlit("active_saver");
    reveal_strlit("idle_enabled");
    reveal_strlit("gpu_enabled");
    reveal_strlit("show_fps_overlay");
    reveal_strlit("render_scale");
    let w = saver_word(c);
    let sw = scale_word(c, sd);
    assert(writable(c, sd)) by {
        if c.render_scale is Some {
            if sd.contains('\n') {
                let k = choose|k: int| 0 <= k < sd.len() && sd[k] == '\n';
                assert(is_digit(sd[k]) || sd[k] == '.');
            }
        }
    }
    lemma_saved_text_lines(c, sd);
    lemma_saved_entries(c, sd);
    let es = saved_entries(c, sd);
    assert(entry_views(entries) == es);
    assert(entries.len() == 8);
    assert forall|i: int| 0 <= i < 8 implies (#[trigger] entries[i]).key@ == es[i].0 && entries[i].value@
        == es[i].1 by {
        assert(entry_views(entries)[i] == (entries[i].key@, entries[i].value@));
    }
    // the values as the loader reads them
    let dec = decimal_text(c.idle_timeout_mins as nat);
    lemma_decimal_text(c.idle_timeout_mins as nat);
    assert(is_digit(dec[0]) && is_digit(dec.last())) by {
        assert(dec.last() == dec[dec.len() - 1]);
    }
    lemma_unquoted_plain(dec);
    assert(parse_unsigned(dec, u32::MAX as nat) == Some(c.idle_timeout_mins as nat));
    lemma_unquoted_plain(bool_text(c.idle_enabled));
    lemma_unquoted_plain(bool_text(c.show_fps_overlay));
    match c.active_saver {
        Some(n) => lemma_unquoted_quoted(n),
        None => lemma_unquoted_quoted("none"@),
    }
    match c.render_scale {
        Some(b) => {
            assert(sd.last() == sd[sd.len() - 1]);
            assert(is_digit(sd[0]) || sd[0] == '.');
            assert(is_digit(sd[sd.len() - 1]) || sd[sd.len() - 1] == '.');
            lemma_unquoted_plain(sd);
            assert(!eq_ignore_ascii_case(sd, "null"@)) by {
                if sd.len() == 4 {
                    assert(crate::text::ascii_lower("null"@[0]) == 'n');
                }
            }
            lemma_clamp_in_range_identity(b);
            assert(entries[7].key@ == "render_scale"@);
        },
        None => {
            lemma_unquoted_plain("null"@);
            assert(eq_ignore_ascii_case("null"@, "null"@));
        },
    }
    // the defaults, changed line by line
    let d = default_config();
    assert(entries.take(0) =~= Seq::<ConfigEntry>::empty());
    lemma_apply_step(d, entries, 0, catalog);
    let a0 = apply_entries(d, entries.take(1), catalog);
    assert(a0 == d) by {
        assert("accent_color"@[2] != "active_saver"@[2]);
        assert("accent_color"@[0] != "idle_enabled"@[0]);
        assert("accent_color"@[0] != "render_scale"@[0]);
    }
    lemma_apply_step(d, entries, 1, catalog);
    let a1 = apply_entries(d, entries.take(2), catalog);
    assert(a1 == ConfigView { idle_timeout_mins: c.idle_timeout_mins, ..d });
    lemma_apply_step(d, entries, 2, catalog);
    let a2 = apply_entries(d, entries.take(3), catalog);
    assert(a2 == a1) by {
        assert("theme_idx"@.len() != "idle_timeout_mins"@.len());
        assert("theme_idx"@.len() != "active_saver"@.len());
        assert("theme_idx"@.len() != "idle_enabled"@.len());
        assert("theme_idx"@.len() != "gpu_enabled"@.len());
        assert("theme_idx"@.len() != "show_fps_overlay"@.len());
        assert("theme_idx"@.len() != "render_scale"@.len());
    }
    lemma_apply_step(d, entries, 3, catalog);
    let a3 = apply_entries(d, entries.take(4), catalog);
    assert(a3 == ConfigView { active_saver: c.active_saver, ..a2 });
    lemma_apply_step(d, entries, 4, catalog);
    let a4 = apply_entries(d, entries.take(5), catalog);
    assert(a4 == ConfigView { idle_enabled: c.idle_enabled, ..a3 }) by {
        assert("idle_enabled"@[0] != "active_saver"@[0]);
        assert("false"@.len() != "true"@.len());
        assert(parse_bool(bool_text(c.idle_enabled)) == Some(c.idle_enabled));
    }
    lemma_apply_step(d, entries, 5, catalog);
    let a5 = apply_entries(d, entries.take(6), catalog);
    assert(a5 == ConfigView { gpu_enabled: false, ..a4 });
    lemma_apply_step(d, entries, 6, catalog);
    let a6 = apply_entries(d, entries.take(7), catalog);
    assert(a6 == ConfigView { show_fps_overlay: c.show_fps_overlay, ..a5 }) by {
        assert("false"@.len() != "true"@.len());
        assert(parse_bool(bool_text(c.show_fps_overlay)) == Some(c.show_fps_overlay));
    }
    lemma_apply_step(d, entries, 7, catalog);
    let a7 = apply_entries(d, entries.take(8), catalog);
    assert(a7 == ConfigView { render_scale: c.render_scale, ..a6 }) by {
        assert("render_scale"@[0] != "active_saver"@[0]);
        assert("render_scale"@[0] != "idle_enabled"@[0]);
        assert(entries[7].key@ == "render_scale"@);
        assert(entries[7].value@ == sw);
    }
    assert(entries.take(8) =~= entries);
}

/// Every official saver name survives the file's quoting.
proof fn lemma_official_names_survive_quoting(n: Seq<char>)
    requires
        official_savers().contains(n),
    ensures
        survives_quoting(n),
{
    reveal_strlit("beams");
    reveal_strlit("bursts");
    reveal_strlit("chaos");
    reveal_strlit("cosmos");
    reveal_strlit("glyphs");
    reveal_strlit("gnats");
    reveal_strlit("storm");
    reveal_strlit("none");
    let k = choose|k: int| 0 <= k < official_savers().len() && official_savers()[k] == n;
    assert(n.len() == 5 || n.len() == 6);
    assert(!n.contains('\n')) by {
        if n.contains('\n') {
            let j = choose|j: int| 0 <= j < n.len() && n[j] == '\n';
            assert(n[j] == official_savers()[k][j]);
        }
    }
    assert(n.last() == n[n.len() - 1]);
}

/// With the official allowlist, valid settings that are saved and loaded back come back
/// unchanged, whatever saver they name; the render scale's decimal must still read back
/// as the same scale.
pub proof fn law_official_settings_load_back(
    c: ConfigView,
    sd: Seq<char>,
    entries: Seq<ConfigEntry>,
    catalog: SaverCatalog,
)
    requires
        name_views(catalog.allowed@) == official_savers(),
        settings_valid(c, catalog),
        c.render_scale is Some ==> decimal_scale(sd),
        entry_views(entries) == config_entries(config_text(c, sd)),
        c.render_scale is Some ==> forall|i: int|
            0 <= i < entries.len() && (#[trigger] entries[i]).key@ == "render_scale"@ ==> entries[i].scale
                == c.render_scale,
    ensures
        apply_entries(default_config(), entries, catalog) == c,
{
    if let Some(n) = c.active_saver {
        let i = choose|i: int| 0 <= i < catalog.allowed@.len() && #[trigger] catalog.allowed@[i]@ == n;
        assert(name_views(catalog.allowed@)[i] == n);
        lemma_official_names_survive_quoting(n);
    }
    law_saved_settings_load_back(c, sd, entries, catalog);
}

} // verus!
