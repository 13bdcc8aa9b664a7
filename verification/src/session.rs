//! The session header card and the other cells shown when a session starts:
//! which cells appear, their text, and the geometry of their border.

use vstd::prelude::*;

use crate::text::{chars_eq, chars_of, string_of};

verus! {

/// The widest inner width of the session header card.
pub const SESSION_HEADER_MAX_INNER_WIDTH: usize = 56;

/// The narrowest inner width at which the large logo is drawn.
pub const SOLAI_LOGO_MIN_INNER_WIDTH: usize = 45;

/// The inner width of a card drawn in a terminal `width` columns wide, at
/// most `max_inner_width`; none when the terminal is narrower than the
/// border itself.
pub open spec fn spec_card_inner_width(width: u16, max_inner_width: usize) -> Option<usize> {
    if width < 4 {
        None
    } else {
        Some(
            if (width - 4) as int <= max_inner_width as int {
                (width - 4) as usize
            } else {
                max_inner_width
            },
        )
    }
}

/// The inner width of a card for a terminal of the given width.
pub fn card_inner_width(width: u16, max_inner_width: usize) -> (r: Option<usize>)
    ensures
        r == spec_card_inner_width(width, max_inner_width),
{
    if width < 4 {
        return None;
    }
    let available = (width - 4) as usize;
    let inner_width = if available <= max_inner_width {
        available
    } else {
        max_inner_width
    };
    Some(inner_width)
}

/// The sum of a list of widths.
pub open spec fn width_sum(widths: Seq<usize>) -> int
    decreases widths.len(),
{
    if widths.len() == 0 {
        0
    } else {
        width_sum(widths.drop_last()) + widths.last()
    }
}

/// The width of the widest line (0 for no lines); each line is given by the
/// display widths of its spans.
pub open spec fn max_line_width(lines: Seq<Seq<usize>>) -> int
    decreases lines.len(),
{
    if lines.len() == 0 {
        0
    } else {
        let rest = max_line_width(lines.drop_last());
        let last = width_sum(lines.last());
        if last > rest {
            last
        } else {
            rest
        }
    }
}

/// The width of the content area: the widest line, or the forced width if
/// that is wider.
pub open spec fn spec_content_width(lines: Seq<Seq<usize>>, forced: Option<usize>) -> int {
    let widest = max_line_width(lines);
    match forced {
        Some(f) => if f >= widest {
            f as int
        } else {
            widest
        },
        None => widest,
    }
}

/// The geometry of a bordered card.
pub struct BorderLayout {
    /// Width of the content area between the `│ ` and ` │` borders.
    pub content_width: usize,
    /// Number of `─` in the top and bottom rules.
    pub rule_width: usize,
    /// For each content line, the blank columns added after it.
    pub paddings: Vec<usize>,
    /// Logo colour index of the bottom rule (the top rule uses 0, content
    /// line `i` uses `i + 1`).
    pub bottom_style_index: usize,
}

/// The content lines fit the border arithmetic of the machine.
pub open spec fn layout_fits(lines: Seq<Seq<usize>>, forced: Option<usize>) -> bool {
    &&& forall|i: int| 0 <= i < lines.len() ==> width_sum(#[trigger] lines[i]) <= usize::MAX
    &&& spec_content_width(lines, forced) + 2 <= usize::MAX
    &&& lines.len() + 1 <= usize::MAX
}

pub proof fn lemma_max_line_width_bound(lines: Seq<Seq<usize>>, i: int)
    requires
        0 <= i < lines.len(),
    ensures
        width_sum(lines[i]) <= max_line_width(lines),
        max_line_width(lines) >= 0,
    decreases lines.len(),
{
    if i < lines.len() - 1 {
        lemma_max_line_width_bound(lines.drop_last(), i);
        assert(lines.drop_last()[i] == lines[i]);
    } else if lines.len() > 1 {
        lemma_max_line_width_bound(lines.drop_last(), 0);
    }
}

fn line_width(spans: &Vec<usize>) -> (r: usize)
    requires
        width_sum(spans@) <= usize::MAX,
    ensures
        r == width_sum(spans@),
{
    let n = spans.len();
    let mut total: usize = 0;
    let mut i: usize = 0;
    proof {
        lemma_width_sum_prefix_mono(spans@, 0, n as int);
    }
    while i < n
        invariant
            n == spans@.len(),
            i <= n,
            total == width_sum(spans@.take(i as int)),
            width_sum(spans@) <= usize::MAX,
        decreases n - i,
    {
        assert(spans@.take(i + 1).drop_last() =~= spans@.take(i as int));
        proof {
            lemma_width_sum_prefix_mono(spans@, i + 1, n as int);
            assert(spans@.take(n as int) =~= spans@);
        }
        total = total + spans[i];
        i = i + 1;
    }
    assert(spans@.take(n as int) =~= spans@);
    total
}

proof fn lemma_width_sum_prefix_mono(s: Seq<usize>, a: int, b: int)
    requires
        0 <= a <= b <= s.len(),
    ensures
        width_sum(s.take(a)) <= width_sum(s.take(b)),
        width_sum(s.take(a)) >= 0,
    decreases b - a,
{
    if a < b {
        lemma_width_sum_prefix_mono(s, a, b - 1);
        assert(s.take(b).drop_last() =~= s.take(b - 1));
    } else {
        lemma_width_sum_nonneg(s.take(a));
    }
}

pub proof fn lemma_width_sum_nonneg(s: Seq<usize>)
    ensures
        width_sum(s) >= 0,
    decreases s.len(),
{
    if s.len() > 0 {
        lemma_width_sum_nonneg(s.drop_last());
    }
}

/// The geometry of a card around `lines` whose content area is at least
/// `forced_inner_width` wide.
pub fn border_layout(lines: &Vec<Vec<usize>>, forced_inner_width: Option<usize>) -> (r:
    BorderLayout)
    requires
        layout_fits(lines@.map_values(|l: Vec<usize>| l@), forced_inner_width),
    ensures
        r.content_width == spec_content_width(
            lines@.map_values(|l: Vec<usize>| l@),
            forced_inner_width,
        ),
        r.rule_width == r.content_width + 2,
        r.paddings@.len() == lines@.len(),
        forall|i: int|
            0 <= i < lines@.len() ==> #[trigger] r.paddings@[i] + width_sum(lines@[i]@)
                == r.content_width,
        r.bottom_style_index == lines@.len() + 1,
{
    let ghost lv = lines@.map_values(|l: Vec<usize>| l@);
    let n = lines.len();
    let mut widths: Vec<usize> = Vec::new();
    let mut widest: usize = 0;
    let mut i: usize = 0;
    while i < n
        invariant
            n == lines@.len(),
            lv == lines@.map_values(|l: Vec<usize>| l@),
            layout_fits(lv, forced_inner_width),
            i <= n,
            widths@.len() == i,
            forall|k: int| 0 <= k < i ==> #[trigger] widths@[k] == width_sum(lv[k]),
            widest == max_line_width(lv.take(i as int)),
        decreases n - i,
    {
        assert(lv[i as int] == lines@[i as int]@);
        let w = line_width(&lines[i]);
        widths.push(w);
        assert(lv.take(i + 1).drop_last() =~= lv.take(i as int));
        if w > widest {
            widest = w;
        }
        i = i + 1;
    }
    assert(lv.take(n as int) =~= lv);
    let content_width = match forced_inner_width {
        Some(f) => if f >= widest {
            f
        } else {
            widest
        },
        None => widest,
    };
    let mut paddings: Vec<usize> = Vec::new();
    let mut j: usize = 0;
    while j < n
        invariant
            n == lines@.len(),
            n == widths@.len(),
            lv == lines@.map_values(|l: Vec<usize>| l@),
            widest == max_line_width(lv),
            content_width >= widest,
            forall|k: int| 0 <= k < n ==> #[trigger] widths@[k] == width_sum(lv[k]),
            j <= n,
            paddings@.len() == j,
            forall|k: int|
                0 <= k < j ==> #[trigger] paddings@[k] + width_sum(lines@[k]@) == content_width,
        decreases n - j,
    {
        proof {
            lemma_max_line_width_bound(lv, j as int);
            assert(lv[j as int] == lines@[j as int]@);
        }
        paddings.push(content_width - widths[j]);
        j = j + 1;
    }
    BorderLayout {
        content_width,
        rule_width: content_width + 2,
        paddings,
        bottom_style_index: n + 1,
    }
}

/// The emoji followed by a hair space (U+200A).
pub fn padded_emoji(emoji: &str) -> (r: String)
    ensures
        r@ == emoji@.push('\u{200A}'),
{
    let mut s = String::from_str(emoji);
    crate::text::push_char(&mut s, '\u{200A}');
    s
}

/// When the agent asks for approval.
#[derive(Clone, Copy, Debug, PartialEq, Eq, Structural)]
pub enum AskForApproval {
    UnlessTrusted,
    OnFailure,
    OnRequest,
    Never,
}

/// File-system access under a managed permission profile.
#[derive(Clone, Copy, Debug, PartialEq, Eq, Structural)]
pub enum ManagedFileSystemPermissions {
    Restricted,
    Unrestricted,
}

/// Network access under a managed permission profile.
#[derive(Clone, Copy, Debug, PartialEq, Eq, Structural)]
pub enum NetworkSandboxPolicy {
    Restricted,
    Enabled,
}

/// The sandbox permissions of a session.
#[derive(Clone, Copy, Debug, PartialEq, Eq, Structural)]
pub enum PermissionProfile {
    Disabled,
    Managed { file_system: ManagedFileSystemPermissions, network: NetworkSandboxPolicy },
}

/// The session runs without approvals and without a sandbox.
pub open spec fn spec_has_yolo_permissions(
    approval_policy: AskForApproval,
    permission_profile: PermissionProfile,
) -> bool {
    approval_policy == AskForApproval::Never && match permission_profile {
        PermissionProfile::Disabled => true,
        PermissionProfile::Managed { file_system, network } => file_system
            == ManagedFileSystemPermissions::Unrestricted && network
            == NetworkSandboxPolicy::Enabled,
    }
}

/// Whether the session runs without approvals and without a sandbox.
pub fn has_yolo_permissions(
    approval_policy: AskForApproval,
    permission_profile: &PermissionProfile,
) -> (r: bool)
    ensures
        r == spec_has_yolo_permissions(approval_policy, *permission_profile),
{
    approval_policy == AskForApproval::Never && match permission_profile {
        PermissionProfile::Disabled => true,
        PermissionProfile::Managed { file_system, network } => *file_system
            == ManagedFileSystemPermissions::Unrestricted && *network
            == NetworkSandboxPolicy::Enabled,
    }
}

/// The header card shown at the start of a session.
pub struct SessionHeaderHistoryCell {
    pub version: String,
    pub model: String,
    /// The label of the configured reasoning effort, if any.
    pub reasoning_effort: Option<String>,
    pub show_fast_status: bool,
    /// The working directory as shown (`~`-relative when under the home
    /// directory).
    pub directory: String,
    pub yolo_mode: bool,
}

/// The model line of the header: the model, the reasoning effort, and
/// `fast` when shown.
pub open spec fn spec_model_value(cell: SessionHeaderHistoryCell) -> Seq<char> {
    cell.model@ + match cell.reasoning_effort {
        Some(r) => " "@ + r@,
        None => Seq::empty(),
    } + if cell.show_fast_status {
        " fast"@
    } else {
        Seq::<char>::empty()
    }
}

/// `  ` then the label left-aligned in ten columns, then a space.
pub open spec fn spec_metadata_label(label: Seq<char>) -> Seq<char> {
    "  "@ + label + Seq::new(
        if label.len() < 10 {
            (10 - label.len()) as nat
        } else {
            0
        },
        |i: int| ' ',
    ) + " "@
}

/// The plain-text lines of the header.
pub open spec fn spec_header_raw_lines(cell: SessionHeaderHistoryCell) -> Seq<Seq<char>> {
    seq![
        "Solai Coder (v"@ + cell.version@ + ")"@,
        "model: "@ + spec_model_value(cell),
        "directory: "@ + cell.directory@,
    ] + if cell.yolo_mode {
        seq!["permissions: YOLO mode"@]
    } else {
        Seq::empty()
    }
}

/// The text of a directory for the header: `~` for the home directory,
/// `~<sep><rest>` below it, the full display form elsewhere.
pub open spec fn spec_directory_label(
    home_relative: Option<Seq<char>>,
    display: Seq<char>,
    separator: char,
) -> Seq<char> {
    match home_relative {
        Some(rel) => if rel.len() == 0 {
            "~"@
        } else {
            "~"@.push(separator) + rel
        },
        None => display,
    }
}

/// The directory text of the header.
pub fn directory_label(home_relative: Option<&str>, display: &str, separator: char) -> (r: String)
    ensures
        r@ == spec_directory_label(
            match home_relative {
                Some(h) => Some(h@),
                None => None,
            },
            display@,
            separator,
        ),
{
    match home_relative {
        Some(rel) => {
            let rc = chars_of(rel);
            if rc.len() == 0 {
                String::from_str("~")
            } else {
                let mut s = String::from_str("~");
                crate::text::push_char(&mut s, separator);
                s.append(rel);
                s
            }
        },
        None => String::from_str(display),
    }
}

impl SessionHeaderHistoryCell {
    /// A header for the given session settings.
    pub fn new(
        model: String,
        reasoning_effort: Option<String>,
        show_fast_status: bool,
        directory: String,
        version: String,
    ) -> (r: Self)
        ensures
            r.model == model,
            r.reasoning_effort == reasoning_effort,
            r.show_fast_status == show_fast_status,
            r.directory == directory,
            r.version == version,
            !r.yolo_mode,
    {
        SessionHeaderHistoryCell {
            version,
            model,
            reasoning_effort,
            show_fast_status,
            directory,
            yolo_mode: false,
        }
    }

    /// The same header with the YOLO mark set as given.
    pub fn with_yolo_mode(self, yolo_mode: bool) -> (r: Self)
        ensures
            r.yolo_mode == yolo_mode,
            r.model == self.model,
            r.reasoning_effort == self.reasoning_effort,
            r.show_fast_status == self.show_fast_status,
            r.directory == self.directory,
            r.version == self.version,
    {
        let mut s = self;
        s.yolo_mode = yolo_mode;
        s
    }

    /// The model line: model, reasoning effort and the fast mark.
    pub fn model_value(&self) -> (r: String)
        ensures
            r@ == spec_model_value(*self),
    {
        let mut value = self.model.clone();
        if let Some(reasoning) = &self.reasoning_effort {
            value.append(" ");
            value.append(reasoning.as_str());
        }
        if self.show_fast_status {
            value.append(" fast");
        }
        proof {
            assert(value@ =~= spec_model_value(*self));
        }
        value
    }

    /// The plain-text lines of the header.
    pub fn raw_lines(&self) -> (r: Vec<String>)
        ensures
            r@.map_values(|s: String| s@) == spec_header_raw_lines(*self),
    {
        let mut first = String::from_str("Solai Coder (v");
        first.append(self.version.as_str());
        first.append(")");
        let mut second = String::from_str("model: ");
        let mv = self.model_value();
        second.append(mv.as_str());
        let mut third = String::from_str("directory: ");
        third.append(self.directory.as_str());
        let mut lines: Vec<String> = Vec::new();
        lines.push(first);
        lines.push(second);
        lines.push(third);
        if self.yolo_mode {
            lines.push(String::from_str("permissions: YOLO mode"));
        }
        assert(lines@.map_values(|s: String| s@) =~= spec_header_raw_lines(*self));
        lines
    }
}

/// The label column of a metadata row.
pub fn metadata_label(label: &str) -> (r: String)
    ensures
        r@ == spec_metadata_label(label@),
{
    let cs = chars_of(label);
    let mut s = String::from_str("  ");
    s.append(label);
    let mut k: usize = cs.len();
    let ghost start = s@;
    while k < 10
        invariant
            cs@ == label@,
            cs@.len() <= k <= 10 || (cs@.len() > 10 && k == cs@.len()),
            s@ =~= start + Seq::new((k - cs@.len()) as nat, |i: int| ' '),
        decreases 10 - k,
    {
        crate::text::push_char(&mut s, ' ');
        k = k + 1;
    }
    s.append(" ");
    proof {
        assert(s@ =~= spec_metadata_label(label@));
    }
    s
}

/// The columns left for a metadata value after its label, in a card whose
/// inner width is `inner_width`; `label_width` is the display width of the
/// label column.
pub fn metadata_value_width(inner_width: usize, label_width: usize) -> (r: usize)
    ensures
        r == if inner_width >= label_width {
            (inner_width - label_width) as usize
        } else {
            0
        },
{
    if inner_width >= label_width {
        inner_width - label_width
    } else {
        0
    }
}

/// Which logo the header draws: the six-line banner when the card is wide
/// enough, the one-word mark otherwise.
pub fn uses_large_logo(inner_width: usize) -> (r: bool)
    ensures
        r == (inner_width >= SOLAI_LOGO_MIN_INNER_WIDTH),
{
    inner_width >= SOLAI_LOGO_MIN_INNER_WIDTH
}

/// One part of the session start-up display.
pub enum SessionInfoPart {
    /// The header card.
    Header(SessionHeaderHistoryCell),
    /// The getting-started help.
    Help,
    /// Links to the project pages.
    Links,
    /// The model used differs from the one requested.
    ModelChanged { requested: String, used: String },
}

/// What is shown when a session starts.
pub struct SessionInfoCell {
    pub parts: Vec<SessionInfoPart>,
}

/// The session settings a start-up display is built from.
pub struct SessionStart {
    pub requested_model: String,
    pub model: String,
    pub reasoning_effort: Option<String>,
    pub show_fast_status: bool,
    pub directory: String,
    pub version: String,
    pub approval_policy: AskForApproval,
    pub permission_profile: PermissionProfile,
    pub is_first_event: bool,
    pub show_tooltips: bool,
    pub has_tooltip_override: bool,
    /// A tooltip is available for the user's plan.
    pub tooltip_available: bool,
}

/// The header part of a start-up display.
pub open spec fn spec_start_header(s: SessionStart) -> SessionHeaderHistoryCell {
    SessionHeaderHistoryCell {
        version: s.version,
        model: s.model,
        reasoning_effort: s.reasoning_effort,
        show_fast_status: s.show_fast_status,
        directory: s.directory,
        yolo_mode: spec_has_yolo_permissions(s.approval_policy, s.permission_profile),
    }
}

/// The kinds of part, in order, that a start-up display shows: the header;
/// then the help on the first event, or else the links (when tooltips are
/// on and one is available) and the model-change notice (when the model
/// differs from the one requested).
pub open spec fn spec_session_info_kinds(s: SessionStart) -> Seq<int> {
    seq![0int] + if s.is_first_event {
        seq![1int]
    } else {
        (if s.show_tooltips && (s.has_tooltip_override || s.tooltip_available) {
            seq![2int]
        } else {
            Seq::empty()
        }) + if s.requested_model@ != s.model@ {
            seq![3int]
        } else {
            Seq::empty()
        }
    }
}

/// The kind of a part: 0 header, 1 help, 2 links, 3 model change.
pub open spec fn part_kind(p: SessionInfoPart) -> int {
    match p {
        SessionInfoPart::Header(_) => 0,
        SessionInfoPart::Help => 1,
        SessionInfoPart::Links => 2,
        SessionInfoPart::ModelChanged { .. } => 3,
    }
}

/// Builds the start-up display of a session.
pub fn new_session_info(start: SessionStart) -> (r: SessionInfoCell)
    ensures
        r.parts@.map_values(|p: SessionInfoPart| part_kind(p)) == spec_session_info_kinds(start),
        r.parts@[0] == SessionInfoPart::Header(spec_start_header(start)),
        forall|i: int|
            0 <= i < r.parts@.len() ==> (#[trigger] r.parts@[i] matches SessionInfoPart::ModelChanged {
                requested,
                used,
            } ==> requested@ == start.requested_model@ && used@ == start.model@),
{
    let ghost s0 = start;
    let SessionStart {
        requested_model,
        model,
        reasoning_effort,
        show_fast_status,
        directory,
        version,
        approval_policy,
        permission_profile,
        is_first_event,
        show_tooltips,
        has_tooltip_override,
        tooltip_available,
    } = start;
    let yolo = has_yolo_permissions(approval_policy, &permission_profile);
    let requested_chars = chars_of(requested_model.as_str());
    let model_chars = chars_of(model.as_str());
    let model_changed = !chars_eq(&requested_chars, &model_chars);
    let used = model.clone();
    let header = SessionHeaderHistoryCell::new(
        model,
        reasoning_effort,
        show_fast_status,
        directory,
        version,
    ).with_yolo_mode(yolo);
    let mut parts: Vec<SessionInfoPart> = Vec::new();
    parts.push(SessionInfoPart::Header(header));
    if is_first_event {
        parts.push(SessionInfoPart::Help);
    } else {
        if show_tooltips && (has_tooltip_override || tooltip_available) {
            parts.push(SessionInfoPart::Links);
        }
        if model_changed {
            parts.push(SessionInfoPart::ModelChanged { requested: requested_model, used });
        }
    }
    assert(parts@.map_values(|p: SessionInfoPart| part_kind(p)) =~= spec_session_info_kinds(s0));
    SessionInfoCell { parts }
}

} // verus!
