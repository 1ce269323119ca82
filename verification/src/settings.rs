//! The configuration records, their defaults, and the rules applied to a
//! loaded configuration: normalising and checking the notes sections,
//! checking the graph settings, choosing the storage path, and the path
//! overrides given on the command line.
use vstd::prelude::*;
use crate::config_types::{
    Background, HintBarStyle, IconMode, KeybindPreset, NotesSection, PreviewExpandMode, Theme,
    notes_section_name,
};
use crate::debug_log::{decimal, usize_to_decimal};
use crate::defaults::default_sections;
use crate::text::{chars_of, concat_str, to_lowercase, unicode_lowercase, eq_lit};

verus! {

/// How panel borders are drawn.
#[derive(Debug, Clone, Copy, PartialEq, Eq, Structural)]
pub enum BorderStyle {
    Plain,
    Rounded,
    Double,
    NoBorder,
}

/// The border style that a lowercased name denotes, if any.
pub open spec fn border_style_from_lower(s: Seq<char>) -> Option<BorderStyle> {
    if s == "plain"@ {
        Some(BorderStyle::Plain)
    } else if s == "rounded"@ {
        Some(BorderStyle::Rounded)
    } else if s == "double"@ {
        Some(BorderStyle::Double)
    } else if s == "none"@ {
        Some(BorderStyle::NoBorder)
    } else {
        None
    }
}

impl Default for BorderStyle {
    fn default() -> (r: BorderStyle)
        ensures
            r == BorderStyle::Rounded,
    {
        BorderStyle::Rounded
    }
}

impl BorderStyle {
    /// Reads a border style from its name, in any letter case.
    pub fn from_str(s: &str) -> (r: Result<BorderStyle, String>)
        ensures
            r is Ok <==> border_style_from_lower(unicode_lowercase(s@)) is Some,
            r matches Ok(v) ==> border_style_from_lower(unicode_lowercase(s@)) == Some(v),
            r matches Err(e) ==> e@ == "Unknown border_style: "@ + s@,
    {
        let lower = to_lowercase(s);
        let v = chars_of(lower.as_str());
        if eq_lit(&v, "plain") {
            Ok(BorderStyle::Plain)
        } else if eq_lit(&v, "rounded") {
            Ok(BorderStyle::Rounded)
        } else if eq_lit(&v, "double") {
            Ok(BorderStyle::Double)
        } else if eq_lit(&v, "none") {
            Ok(BorderStyle::NoBorder)
        } else {
            Err(concat_str("Unknown border_style: ", s))
        }
    }
}

/// Status bar and border settings.
pub struct DisplayConfig {
    pub show_status_bar: bool,
    pub status_format: Option<String>,
    pub border_style: BorderStyle,
    pub border_title: String,
}

impl Default for DisplayConfig {
    fn default() -> (r: DisplayConfig)
        ensures
            r.show_status_bar,
            r.status_format is None,
            r.border_style == BorderStyle::Rounded,
            r.border_title@ == "graf"@,
    {
        DisplayConfig {
            show_status_bar: true,
            status_format: None,
            border_style: BorderStyle::Rounded,
            border_title: String::from_str("graf"),
        }
    }
}

/// A theme and the colors that override it.
pub struct ThemeConfig {
    pub theme: Theme,
    pub background: Background,
    pub accent: Option<String>,
    pub heading: Option<String>,
    pub success: Option<String>,
    pub destructive: Option<String>,
    pub muted: Option<String>,
    pub text: Option<String>,
    pub border: Option<String>,
    pub tag: Option<String>,
    pub folder: Option<String>,
    pub background_color: Option<String>,
}

impl Default for ThemeConfig {
    fn default() -> (r: ThemeConfig)
        ensures
            r.theme == Theme::Default,
            r.background == Background::Transparent,
            r.accent is None && r.heading is None && r.success is None && r.destructive is None,
            r.muted is None && r.text is None && r.border is None && r.tag is None,
            r.folder is None && r.background_color is None,
    {
        ThemeConfig {
            theme: Theme::Default,
            background: Background::Transparent,
            accent: None,
            heading: None,
            success: None,
            destructive: None,
            muted: None,
            text: None,
            border: None,
            tag: None,
            folder: None,
            background_color: None,
        }
    }
}

/// Appearance of the application.
pub struct UiConfig {
    pub theme: String,
    pub background: Background,
    pub accent: Option<String>,
    pub heading: Option<String>,
    pub success: Option<String>,
    pub destructive: Option<String>,
    pub muted: Option<String>,
    pub text: Option<String>,
    pub border: Option<String>,
    pub tag: Option<String>,
    pub folder: Option<String>,
    pub background_color: Option<String>,
    pub show_status_bar: bool,
    pub tab_icons_only: bool,
    pub icon_mode: IconMode,
    pub scrollbars: bool,
    pub scrollbar_pan_mode: bool,
    pub hint_bar_style: HintBarStyle,
}

impl Default for UiConfig {
    fn default() -> (r: UiConfig)
        ensures
            r.theme@ == "default"@,
            r.background == Background::Transparent,
            r.accent is None && r.heading is None && r.success is None && r.destructive is None,
            r.muted is None && r.text is None && r.border is None && r.tag is None,
            r.folder is None && r.background_color is None,
            r.show_status_bar && !r.tab_icons_only && r.scrollbars && !r.scrollbar_pan_mode,
            r.icon_mode == IconMode::Nerd,
            r.hint_bar_style == HintBarStyle::Classic,
    {
        UiConfig {
            theme: String::from_str("default"),
            background: Background::Transparent,
            accent: None,
            heading: None,
            success: None,
            destructive: None,
            muted: None,
            text: None,
            border: None,
            tag: None,
            folder: None,
            background_color: None,
            show_status_bar: true,
            tab_icons_only: false,
            icon_mode: IconMode::Nerd,
            scrollbars: true,
            scrollbar_pan_mode: false,
            hint_bar_style: HintBarStyle::Classic,
        }
    }
}

/// Which notes the graph leaves out.
pub struct FilterConfig {
    pub exclude_tags: Vec<String>,
    pub show_orphan: bool,
}

impl Default for FilterConfig {
    fn default() -> (r: FilterConfig)
        ensures
            r.exclude_tags@.len() == 0,
            !r.show_orphan,
    {
        FilterConfig { exclude_tags: Vec::new(), show_orphan: false }
    }
}

/// Limits of the search results.
pub struct SearchConfig {
    pub max_results: usize,
    pub max_visible: usize,
}

impl Default for SearchConfig {
    fn default() -> (r: SearchConfig)
        ensures
            r.max_results == 20,
            r.max_visible == 10,
    {
        SearchConfig { max_results: 20, max_visible: 10 }
    }
}

/// Backups to a git repository.
pub struct BackupConfig {
    pub enabled: bool,
    pub backup_on_save: bool,
    pub backup_on_quit: bool,
    pub auto_push: bool,
    pub remote_url: Option<String>,
    pub remote_name: Option<String>,
    pub auto_backup_interval: Option<u64>,
}

impl Default for BackupConfig {
    fn default() -> (r: BackupConfig)
        ensures
            !r.enabled && !r.backup_on_save && !r.backup_on_quit && !r.auto_push,
            r.remote_url is None && r.remote_name is None && r.auto_backup_interval is None,
    {
        BackupConfig {
            enabled: false,
            backup_on_save: false,
            backup_on_quit: false,
            auto_push: false,
            remote_url: None,
            remote_name: None,
            auto_backup_interval: None,
        }
    }
}

/// Inline images.
pub struct ImageConfig {
    pub enabled: bool,
    pub max_dimension: u32,
    pub cache_size: usize,
    pub preview_rows: u8,
    pub attachments_subdir: String,
}

impl Default for ImageConfig {
    fn default() -> (r: ImageConfig)
        ensures
            r.enabled,
            r.max_dimension == 2048,
            r.cache_size == 32,
            r.preview_rows == 8,
            r.attachments_subdir@ == "attachments"@,
    {
        ImageConfig {
            enabled: true,
            max_dimension: 2048,
            cache_size: 32,
            preview_rows: 8,
            attachments_subdir: String::from_str("attachments"),
        }
    }
}

/// A folder of the notes list that gathers notes by rule.
pub struct CustomSmartFolder {
    pub name: String,
    pub tags: Vec<String>,
    pub title_contains: Option<String>,
    pub folder_prefix: Option<String>,
    pub updated_within_days: Option<u64>,
}

/// The built-in editor and the external one.
pub struct EditorConfig {
    pub external_command: Option<String>,
    pub external_enabled: bool,
    pub preview_enabled: bool,
    pub show_line_numbers: bool,
    pub date_format: String,
    pub edit_mode_highlight: bool,
    pub ghost_syntax: bool,
    pub extended_markdown_features: bool,
    pub soft_wrap: bool,
}

impl Default for EditorConfig {
    fn default() -> (r: EditorConfig)
        ensures
            r.external_command is None,
            !r.external_enabled && !r.preview_enabled,
            r.show_line_numbers,
            r.date_format@ == "%Y-%m-%d %H:%M"@,
            r.edit_mode_highlight && r.ghost_syntax && r.extended_markdown_features,
            !r.soft_wrap,
    {
        EditorConfig {
            external_command: None,
            external_enabled: false,
            preview_enabled: false,
            show_line_numbers: true,
            date_format: String::from_str("%Y-%m-%d %H:%M"),
            edit_mode_highlight: true,
            ghost_syntax: true,
            extended_markdown_features: true,
            soft_wrap: false,
        }
    }
}

/// Storage, mouse, confirmation and preview settings.
pub struct CoreConfig {
    pub storage_path: Option<String>,
    pub mouse_enabled: bool,
    pub default_folder: Option<String>,
    pub confirm_on_delete: bool,
    pub confirm_on_quit: bool,
    pub preview_wrap: bool,
    pub keybind_preset: KeybindPreset,
    pub enable_key_sequences: bool,
    pub preview_expand_mode: PreviewExpandMode,
    pub preview_command: Option<String>,
    pub syntax_highlighting: bool,
    pub code_theme: String,
    pub code_line_numbers: bool,
    pub auto_refresh: bool,
    pub preview_wrap_indicator: bool,
    pub link_url_max_length: usize,
}

impl Default for CoreConfig {
    fn default() -> (r: CoreConfig)
        ensures
            r.storage_path is None && r.default_folder is None && r.preview_command is None,
            r.mouse_enabled && r.confirm_on_delete && !r.confirm_on_quit && r.preview_wrap,
            r.keybind_preset == KeybindPreset::Default,
            !r.enable_key_sequences,
            r.preview_expand_mode == PreviewExpandMode::Inline,
            r.syntax_highlighting && r.code_line_numbers && r.auto_refresh,
            r.code_theme@ == "base16-ocean.dark"@,
            !r.preview_wrap_indicator,
            r.link_url_max_length == 80,
    {
        CoreConfig {
            storage_path: None,
            mouse_enabled: true,
            default_folder: None,
            confirm_on_delete: true,
            confirm_on_quit: false,
            preview_wrap: true,
            keybind_preset: KeybindPreset::Default,
            enable_key_sequences: false,
            preview_expand_mode: PreviewExpandMode::Inline,
            preview_command: None,
            syntax_highlighting: true,
            code_theme: String::from_str("base16-ocean.dark"),
            code_line_numbers: true,
            auto_refresh: true,
            preview_wrap_indicator: false,
            link_url_max_length: 80,
        }
    }
}

impl CoreConfig {
    /// Sets the configured storage path.
    pub fn set_storage_path(&mut self, path: String)
        ensures
            *final(self) == (CoreConfig { storage_path: Some(path), ..*old(self) }),
    {
        self.storage_path = Some(path);
    }

    /// Forgets the configured storage path, so that the default one is used.
    pub fn reset_storage_path(&mut self)
        ensures
            *final(self) == (CoreConfig { storage_path: None, ..*old(self) }),
    {
        self.storage_path = None;
    }

    /// Whether a count typed before a command repeats it: only under the
    /// Vim and Helix presets.
    pub fn counts_enabled(&self) -> (r: bool)
        ensures
            r == (self.keybind_preset == KeybindPreset::Vim || self.keybind_preset
                == KeybindPreset::Helix),
    {
        match self.keybind_preset {
            KeybindPreset::Vim | KeybindPreset::Helix => true,
            _ => false,
        }
    }
}

/// Daily writing goals.
pub struct GoalsConfig {
    pub enabled: bool,
    pub word_goal: usize,
    pub note_goal: usize,
}

impl Default for GoalsConfig {
    fn default() -> (r: GoalsConfig)
        ensures
            r.enabled,
            r.word_goal == 500,
            r.note_goal == 3,
    {
        GoalsConfig { enabled: true, word_goal: 500, note_goal: 3 }
    }
}

/// Templates of the header and footer of one view.
pub struct StatuslineOverride {
    pub header_left: Option<String>,
    pub header_right: Option<String>,
    pub footer_left: Option<String>,
    pub footer_right: Option<String>,
}

impl Default for StatuslineOverride {
    fn default() -> (r: StatuslineOverride)
        ensures
            r.header_left is None && r.header_right is None,
            r.footer_left is None && r.footer_right is None,
    {
        StatuslineOverride {
            header_left: None,
            header_right: None,
            footer_left: None,
            footer_right: None,
        }
    }
}

/// Templates of the header and footer, and their overrides per view.
pub struct StatuslineConfig {
    pub header_left: Option<String>,
    pub header_right: Option<String>,
    pub footer_left: Option<String>,
    pub footer_right: Option<String>,
    pub list: Option<StatuslineOverride>,
    pub edit: Option<StatuslineOverride>,
    pub help: Option<StatuslineOverride>,
    pub graph: Option<StatuslineOverride>,
    pub draw: Option<StatuslineOverride>,
    pub canvas: Option<StatuslineOverride>,
    pub backup: Option<StatuslineOverride>,
    pub outline: Option<StatuslineOverride>,
}

impl Default for StatuslineConfig {
    fn default() -> (r: StatuslineConfig)
        ensures
            r.header_left is None && r.header_right is None,
            r.footer_left is None && r.footer_right is None,
            r.list is None && r.edit is None && r.help is None && r.graph is None,
            r.draw is None && r.canvas is None && r.backup is None && r.outline is None,
    {
        StatuslineConfig {
            header_left: None,
            header_right: None,
            footer_left: None,
            footer_right: None,
            list: None,
            edit: None,
            help: None,
            graph: None,
            draw: None,
            canvas: None,
            backup: None,
            outline: None,
        }
    }
}

// ---------------------------------------------------------------------------
// Notes sections
// ---------------------------------------------------------------------------

/// The sections with each repeated one dropped: the first occurrence of
/// each section stays, in order.
pub open spec fn first_occurrences(s: Seq<NotesSection>) -> Seq<NotesSection>
    decreases s.len(),
{
    if s.len() == 0 {
        Seq::empty()
    } else {
        let d = first_occurrences(s.drop_last());
        if d.contains(s.last()) {
            d
        } else {
            d.push(s.last())
        }
    }
}

/// The sections a configuration ends with: repeats dropped, at most two
/// kept, and the default sections when none is left.
pub open spec fn normalized_sections(s: Seq<NotesSection>) -> Seq<NotesSection> {
    let d = first_occurrences(s);
    let kept = if d.len() > 2 {
        d.take(2)
    } else {
        d
    };
    if kept.len() == 0 {
        seq![NotesSection::Calendar, NotesSection::Goals]
    } else {
        kept
    }
}

/// No section occurs twice.
pub open spec fn distinct(s: Seq<NotesSection>) -> bool {
    forall|i: int, j: int| 0 <= i < j < s.len() ==> s[i] != s[j]
}

/// An element is in a sequence with one more element exactly when it is
/// that element or was in the sequence.
pub proof fn lemma_push_contains<T>(s: Seq<T>, e: T, x: T)
    ensures
        s.push(e).contains(x) == (s.contains(x) || e == x),
{
    if s.push(e).contains(x) {
        let k = choose|k: int| 0 <= k < s.push(e).len() && s.push(e)[k] == x;
        if k < s.len() {
            assert(s[k] == x);
        }
    }
    if s.contains(x) {
        let k = choose|k: int| 0 <= k < s.len() && s[k] == x;
        assert(s.push(e)[k] == x);
    }
    if e == x {
        assert(s.push(e)[s.len() as int] == x);
    }
}

/// The sections kept are distinct, and each of them occurs in the input;
/// every section of the input is kept.
pub proof fn lemma_first_occurrences(s: Seq<NotesSection>)
    ensures
        distinct(first_occurrences(s)),
        forall|x: NotesSection| first_occurrences(s).contains(x) <==> s.contains(x),
        first_occurrences(s).len() <= s.len(),
    decreases s.len(),
{
    if s.len() > 0 {
        lemma_first_occurrences(s.drop_last());
        let d = first_occurrences(s.drop_last());
        assert(s.drop_last().push(s.last()) == s);
        assert forall|x: NotesSection| first_occurrences(s).contains(x) <==> s.contains(x) by {
            lemma_push_contains(s.drop_last(), s.last(), x);
            lemma_push_contains(d, s.last(), x);
        }
        if !d.contains(s.last()) {
            assert forall|i: int, j: int|
                0 <= i < j < d.push(s.last()).len() implies d.push(s.last())[i] != d.push(
                s.last(),
            )[j] by {
                if j == d.len() {
                    assert(d[i] == d.push(s.last())[i]);
                }
            }
        }
    }
}

/// Dropping repeats from distinct sections changes nothing.
pub proof fn lemma_first_occurrences_distinct(s: Seq<NotesSection>)
    requires
        distinct(s),
    ensures
        first_occurrences(s) == s,
    decreases s.len(),
{
    if s.len() > 0 {
        lemma_first_occurrences_distinct(s.drop_last());
        lemma_first_occurrences(s.drop_last());
        if s.drop_last().contains(s.last()) {
            let k = choose|k: int| 0 <= k < s.drop_last().len() && s.drop_last()[k] == s.last();
            assert(s[k] == s[s.len() - 1]);
        }
        assert(s.drop_last().push(s.last()) == s);
    }
}

/// Normalised sections are one or two distinct sections, and normalising
/// them again changes nothing.
pub proof fn normalized_sections_stable(s: Seq<NotesSection>)
    ensures
        1 <= normalized_sections(s).len() <= 2,
        distinct(normalized_sections(s)),
        normalized_sections(normalized_sections(s)) == normalized_sections(s),
{
    lemma_first_occurrences(s);
    let n = normalized_sections(s);
    assert(distinct(n));
    lemma_first_occurrences_distinct(n);
}

/// Normalises the sections of a configuration in place: repeats dropped,
/// at most two kept, the defaults when none is left.
pub fn normalize_sections(sections: &mut Vec<NotesSection>)
    ensures
        final(sections)@ == normalized_sections(old(sections)@),
{
    let ghost input = sections@;
    let mut out: Vec<NotesSection> = Vec::new();
    let mut i: usize = 0;
    while i < sections.len()
        invariant
            sections@ == input,
            i <= input.len(),
            out@ == first_occurrences(input.take(i as int)),
        decreases input.len() - i,
    {
        let x = sections[i];
        let mut seen = false;
        let mut j: usize = 0;
        while j < out.len()
            invariant
                j <= out@.len(),
                seen == out@.take(j as int).contains(x),
            decreases out@.len() - j,
        {
            proof {
                assert(out@.take(j + 1) == out@.take(j as int).push(out@[j as int]));
                lemma_push_contains(out@.take(j as int), out@[j as int], x);
            }
            if out[j] == x {
                seen = true;
            }
            j = j + 1;
        }
        proof {
            assert(out@.take(out@.len() as int) == out@);
            assert(input.take(i + 1).drop_last() == input.take(i as int));
        }
        if !seen {
            out.push(x);
        }
        i = i + 1;
    }
    proof {
        assert(input.take(input.len() as int) == input);
    }
    if out.len() > 2 {
        out.truncate(2);
    }
    if out.len() == 0 {
        out = default_sections();
    }
    *sections = out;
}

/// The faults of a configuration that `validate` reports, in order: the
/// label length out of 1-60, the node size fault (which the caller checked,
/// if any), the edge thickness out of 1-3, too many sections, each repeated
/// section, and no section at all.
pub open spec fn config_faults(
    label_max_length: usize,
    node_size_fault: Option<Seq<char>>,
    edge_thickness: u16,
    sections: Seq<NotesSection>,
) -> Seq<Seq<char>> {
    let a: Seq<Seq<char>> = if label_max_length < 1 || label_max_length > 60 {
        seq!["graf.visual.label_max_length must be 1-60, got "@ + decimal(label_max_length as nat)]
    } else {
        Seq::empty()
    };
    let b: Seq<Seq<char>> = match node_size_fault {
        Some(f) => seq![f],
        None => Seq::empty(),
    };
    let c: Seq<Seq<char>> = if edge_thickness < 1 || edge_thickness > 3 {
        seq!["graf.visual.edge_thickness must be 1-3, got "@ + decimal(edge_thickness as nat)]
    } else {
        Seq::empty()
    };
    let d: Seq<Seq<char>> = if sections.len() > 2 {
        seq!["list.sections has "@ + decimal(sections.len()) + " entries, max is 2"@]
    } else {
        Seq::empty()
    };
    let e = repeat_faults(sections);
    let f: Seq<Seq<char>> = if sections.len() == 0 {
        seq!["list.sections is empty, will use defaults"@]
    } else {
        Seq::empty()
    };
    a + b + c + d + e + f
}

/// One fault for each section that repeats an earlier one, in order.
pub open spec fn repeat_faults(s: Seq<NotesSection>) -> Seq<Seq<char>>
    decreases s.len(),
{
    if s.len() == 0 {
        Seq::empty()
    } else {
        let earlier = repeat_faults(s.drop_last());
        if s.drop_last().contains(s.last()) {
            earlier.push("list.sections contains duplicate: "@ + notes_section_name(s.last()))
        } else {
            earlier
        }
    }
}

/// The views of a list of strings.
pub open spec fn string_views(v: Seq<String>) -> Seq<Seq<char>> {
    v.map_values(|p: String| p@)
}

/// The view of an optional string.
pub open spec fn opt_string_view(o: Option<String>) -> Option<Seq<char>> {
    match o {
        Some(f) => Some(f@),
        None => None,
    }
}

/// Whether `x` occurs in `v[..n]`.
fn occurs_before(v: &Vec<NotesSection>, n: usize, x: NotesSection) -> (r: bool)
    requires
        n <= v@.len(),
    ensures
        r == v@.take(n as int).contains(x),
{
    let mut j: usize = 0;
    while j < n
        invariant
            n <= v@.len(),
            j <= n,
            forall|k: int| 0 <= k < j ==> v@[k] != x,
        decreases n - j,
    {
        if v[j] == x {
            assert(v@.take(n as int)[j as int] == x);
            return true;
        }
        j = j + 1;
    }
    false
}

/// The faults of a configuration, as `ClinConfig::validate` reports them.
/// The node size is a float and is checked by the caller, which passes its
/// fault message, if any.
pub fn validate_config(
    label_max_length: usize,
    node_size_fault: Option<String>,
    edge_thickness: u16,
    sections: &Vec<NotesSection>,
) -> (r: Vec<String>)
    ensures
        string_views(r@) == config_faults(
            label_max_length,
            opt_string_view(node_size_fault),
            edge_thickness,
            sections@,
        ),
{
    let ghost nf = opt_string_view(node_size_fault);
    let ghost fa: Seq<Seq<char>> = if label_max_length < 1 || label_max_length > 60 {
        seq!["graf.visual.label_max_length must be 1-60, got "@ + decimal(label_max_length as nat)]
    } else {
        Seq::empty()
    };
    let ghost fb: Seq<Seq<char>> = match nf {
        Some(f) => seq![f],
        None => Seq::empty(),
    };
    let ghost fc: Seq<Seq<char>> = if edge_thickness < 1 || edge_thickness > 3 {
        seq!["graf.visual.edge_thickness must be 1-3, got "@ + decimal(edge_thickness as nat)]
    } else {
        Seq::empty()
    };
    let ghost fd: Seq<Seq<char>> = if sections@.len() > 2 {
        seq!["list.sections has "@ + decimal(sections@.len()) + " entries, max is 2"@]
    } else {
        Seq::empty()
    };
    let mut errs: Vec<String> = Vec::new();
    if label_max_length < 1 || label_max_length > 60 {
        errs.push(
            concat_str(
                "graf.visual.label_max_length must be 1-60, got ",
                usize_to_decimal(label_max_length).as_str(),
            ),
        );
    }
    assert(string_views(errs@) =~= fa);
    match node_size_fault {
        Some(f) => errs.push(f),
        None => {},
    }
    assert(string_views(errs@) =~= fa + fb);
    if edge_thickness < 1 || edge_thickness > 3 {
        errs.push(
            concat_str(
                "graf.visual.edge_thickness must be 1-3, got ",
                usize_to_decimal(edge_thickness as usize).as_str(),
            ),
        );
    }
    assert(string_views(errs@) =~= fa + fb + fc);
    if sections.len() > 2 {
        let head = concat_str("list.sections has ", usize_to_decimal(sections.len()).as_str());
        errs.push(concat_str(head.as_str(), " entries, max is 2"));
    }
    assert(string_views(errs@) =~= fa + fb + fc + fd);
    let ghost before = string_views(errs@);
    let mut i: usize = 0;
    while i < sections.len()
        invariant
            i <= sections@.len(),
            string_views(errs@) == before + repeat_faults(sections@.take(i as int)),
        decreases sections@.len() - i,
    {
        let x = sections[i];
        proof {
            assert(sections@.take(i + 1).drop_last() == sections@.take(i as int));
            assert(sections@.take(i + 1).last() == x);
        }
        if occurs_before(sections, i, x) {
            let name = x.to_string();
            let ghost pre = errs@;
            errs.push(concat_str("list.sections contains duplicate: ", name.as_str()));
            proof {
                assert(string_views(errs@) =~= string_views(pre).push(
                    "list.sections contains duplicate: "@ + notes_section_name(x),
                ));
            }
        }
        i = i + 1;
    }
    proof {
        assert(sections@.take(sections@.len() as int) == sections@);
    }
    if sections.len() == 0 {
        errs.push(String::from_str("list.sections is empty, will use defaults"));
    }
    proof {
        assert(string_views(errs@) =~= config_faults(
            label_max_length,
            opt_string_view(node_size_fault),
            edge_thickness,
            sections@,
        ));
    }
    errs
}

// ---------------------------------------------------------------------------
// Storage path and path overrides
// ---------------------------------------------------------------------------

/// The paths given on the command line for this run. Each is set at most
/// once: the first value given stays.
pub struct PathOverrides {
    pub config_path: Option<String>,
    pub storage_path: Option<String>,
}

impl PathOverrides {
    /// No override given.
    pub fn new() -> (r: PathOverrides)
        ensures
            r.config_path is None,
            r.storage_path is None,
    {
        PathOverrides { config_path: None, storage_path: None }
    }

    /// Records the `--config` path; later calls change nothing.
    pub fn set_config_path_override(&mut self, path: String)
        ensures
            old(self).config_path is None ==> final(self).config_path == Some(path),
            old(self).config_path is Some ==> final(self).config_path == old(self).config_path,
            final(self).storage_path == old(self).storage_path,
    {
        if self.config_path.is_none() {
            self.config_path = Some(path);
        }
    }

    /// Records the `--vault` path; later calls change nothing.
    pub fn set_storage_path_override(&mut self, path: String)
        ensures
            old(self).storage_path is None ==> final(self).storage_path == Some(path),
            old(self).storage_path is Some ==> final(self).storage_path == old(self).storage_path,
            final(self).config_path == old(self).config_path,
    {
        if self.storage_path.is_none() {
            self.storage_path = Some(path);
        }
    }
}

/// Where notes are stored: the `--vault` override, else the configured
/// path, else the platform's default (which the caller found, or failed to
/// find).
pub fn effective_storage_path(
    overridden: &Option<String>,
    configured: &Option<String>,
    default_path: &Result<String, String>,
) -> (r: Result<String, String>)
    ensures
        overridden matches Some(p) ==> r == Ok::<String, String>(*p),
        overridden is None && configured.is_some() ==> r == Ok::<String, String>(configured->0),
        overridden is None && configured is None ==> r == *default_path,
{
    match overridden {
        Some(p) => Ok(p.clone()),
        None => match configured {
            Some(p) => Ok(p.clone()),
            None => match default_path {
                Ok(p) => Ok(p.clone()),
                Err(e) => Err(e.clone()),
            },
        },
    }
}

/// Whether the storage path differs from the platform's default.
pub fn has_custom_storage_path(overridden: &Option<String>, configured: &Option<String>) -> (r:
    bool)
    ensures
        r == (overridden is Some || configured is Some),
{
    overridden.is_some() || configured.is_some()
}

} // verus!
