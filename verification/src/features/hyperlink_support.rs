//! Hyperlinks: telling link kinds apart by scheme, and the program each
//! kind is opened with.
use crate::advanced::HyperlinkType;
use crate::features::search_functionality::{
    find_spans, regex_compiles, regex_match_spans, span_text, spans_well_placed, SearchError,
    SearchPattern,
};
use crate::stamps::{by_time, new_uuid, same_uuid, time_order, utc_now_millis};
use crate::text::{chars_of, starts_with_chars, starts_with_seq};
use vstd::prelude::*;
use vstd::string::*;
use vstd::utf8::*;

verus! {

/// Link configuration.
#[derive(Debug, Clone, Copy)]
pub struct LinkConfig {
    /// Enable detection
    pub enable_detection: bool,
    /// Enable clicking
    pub enable_clicking: bool,
    /// Enable highlighting
    pub enable_highlighting: bool,
    /// Maximum link length
    pub max_link_length: usize,
    /// Link timeout
    pub link_timeout: u32,
}

/// How a click on a link is carried out: `program` is run with `argument`,
/// and `failure_message` is the error when it does not succeed.
#[derive(Debug, Clone)]
pub struct LinkLaunch {
    /// Program to run
    pub program: String,
    /// Its argument, the link
    pub argument: String,
    /// Error message if the program fails
    pub failure_message: String,
}

/// Handles clicks on links of one kind.
pub trait LinkHandler {
    /// How a click on `url` is carried out.
    fn handle_click(&self, url: &str) -> LinkLaunch;
}

/// The kind of a link, by its scheme.
pub open spec fn link_type_of(url: Seq<char>) -> HyperlinkType {
    if starts_with_seq(url, "http://"@) || starts_with_seq(url, "https://"@) {
        HyperlinkType::Http
    } else if starts_with_seq(url, "ftp://"@) {
        HyperlinkType::Ftp
    } else if starts_with_seq(url, "file://"@) {
        HyperlinkType::File
    } else if starts_with_seq(url, "mailto:"@) {
        HyperlinkType::Mailto
    } else {
        HyperlinkType::Other
    }
}

/// Whether `url` starts with `prefix`.
fn has_prefix(url: &Vec<char>, prefix: &str) -> (b: bool)
    ensures
        b == starts_with_seq(url@, prefix@),
{
    let p = chars_of(prefix);
    starts_with_chars(url, &p)
}

/// The kind of a link, by its scheme.
pub fn determine_link_type(url: &str) -> (t: HyperlinkType)
    ensures
        t == link_type_of(url@),
{
    let u = chars_of(url);
    if has_prefix(&u, "http://") || has_prefix(&u, "https://") {
        HyperlinkType::Http
    } else if has_prefix(&u, "ftp://") {
        HyperlinkType::Ftp
    } else if has_prefix(&u, "file://") {
        HyperlinkType::File
    } else if has_prefix(&u, "mailto:") {
        HyperlinkType::Mailto
    } else {
        HyperlinkType::Other
    }
}

/// The launch of `program` on `url`, failing with `message` and the url.
fn launch(program: &String, url: &str, message: &str) -> (r: LinkLaunch)
    ensures
        r.program@ == program@,
        r.argument@ == url@,
        r.failure_message@ == message@ + url@,
{
    let mut failure_message = message.to_string();
    failure_message.append(url);
    LinkLaunch { program: program.clone(), argument: url.to_string(), failure_message }
}

/// Http link handler: HTTP links open in the browser.
pub struct HttpLinkHandler {
    browser_command: String,
}

impl HttpLinkHandler {
    /// The program it opens links with.
    pub closed spec fn command(self) -> Seq<char> {
        self.browser_command@
    }

    /// A handler that opens links with `xdg-open`.
    pub fn new() -> (h: Self)
        ensures
            h.command() == "xdg-open"@,
    {
        HttpLinkHandler { browser_command: "xdg-open".to_string() }
    }
}

impl LinkHandler for HttpLinkHandler {
    fn handle_click(&self, url: &str) -> (r: LinkLaunch)
        ensures
            r.program@ == self.command(),
            r.argument@ == url@,
            r.failure_message@ == "Failed to open URL: "@ + url@,
    {
        launch(&self.browser_command, url, "Failed to open URL: ")
    }
}

/// Ftp link handler: FTP links open in the FTP client.
pub struct FtpLinkHandler {
    ftp_command: String,
}

impl FtpLinkHandler {
    /// The program it opens links with.
    pub closed spec fn command(self) -> Seq<char> {
        self.ftp_command@
    }

    /// A handler that opens links with `xdg-open`.
    pub fn new() -> (h: Self)
        ensures
            h.command() == "xdg-open"@,
    {
        FtpLinkHandler { ftp_command: "xdg-open".to_string() }
    }
}

impl LinkHandler for FtpLinkHandler {
    fn handle_click(&self, url: &str) -> (r: LinkLaunch)
        ensures
            r.program@ == self.command(),
            r.argument@ == url@,
            r.failure_message@ == "Failed to open FTP URL: "@ + url@,
    {
        launch(&self.ftp_command, url, "Failed to open FTP URL: ")
    }
}

/// File link handler: file links open in the file manager.
pub struct FileLinkHandler {
    file_manager_command: String,
}

impl FileLinkHandler {
    /// The program it opens links with.
    pub closed spec fn command(self) -> Seq<char> {
        self.file_manager_command@
    }

    /// A handler that opens links with `xdg-open`.
    pub fn new() -> (h: Self)
        ensures
            h.command() == "xdg-open"@,
    {
        FileLinkHandler { file_manager_command: "xdg-open".to_string() }
    }
}

impl LinkHandler for FileLinkHandler {
    fn handle_click(&self, url: &str) -> (r: LinkLaunch)
        ensures
            r.program@ == self.command(),
            r.argument@ == url@,
            r.failure_message@ == "Failed to open file: "@ + url@,
    {
        launch(&self.file_manager_command, url, "Failed to open file: ")
    }
}

/// Mailto link handler: mail links open in the mail client.
pub struct MailtoLinkHandler {
    mail_client_command: String,
}

impl MailtoLinkHandler {
    /// The program it opens links with.
    pub closed spec fn command(self) -> Seq<char> {
        self.mail_client_command@
    }

    /// A handler that opens links with `xdg-email`.
    pub fn new() -> (h: Self)
        ensures
            h.command() == "xdg-email"@,
    {
        MailtoLinkHandler { mail_client_command: "xdg-email".to_string() }
    }
}

impl LinkHandler for MailtoLinkHandler {
    fn handle_click(&self, url: &str) -> (r: LinkLaunch)
        ensures
            r.program@ == self.command(),
            r.argument@ == url@,
            r.failure_message@ == "Failed to open mailto link: "@ + url@,
    {
        launch(&self.mail_client_command, url, "Failed to open mailto link: ")
    }
}

/// A link found in text.
#[derive(Debug)]
pub struct DetectedLink {
    /// Identifier
    pub id: uuid::Uuid,
    /// The link
    pub url: String,
    /// Its kind
    pub link_type: HyperlinkType,
    /// Where the text it was found in stands
    pub position: (u32, u32),
    /// Byte offset of its start in that text
    pub start_offset: usize,
    /// Byte offset just past its end
    pub end_offset: usize,
    /// When it was found, in milliseconds since the Unix epoch
    pub detected_at: i64,
    /// How often it was clicked
    pub click_count: u32,
}

/// `l` is the link found at byte span `span` of text with bytes `b` standing
/// at `position`: the text of the span, its kind, its offsets, not clicked.
pub open spec fn link_at(b: Seq<u8>, span: (usize, usize), position: (u32, u32), l: DetectedLink) -> bool {
    &&& encode_utf8(l.url@) == b.subrange(span.0 as int, span.1 as int)
    &&& l.link_type == link_type_of(l.url@)
    &&& l.position == position
    &&& l.start_offset == span.0
    &&& l.end_offset == span.1
    &&& l.click_count == 0
}

/// The spans of the links found in `text` by `patterns`: those of the first
/// pattern, then those of the next, and so on.
pub open spec fn link_spans(patterns: Seq<Seq<char>>, text: Seq<char>) -> Seq<(usize, usize)>
    decreases patterns.len(),
{
    if patterns.len() == 0 {
        seq![]
    } else {
        link_spans(patterns.drop_last(), text) + regex_match_spans(patterns.last(), text)
    }
}

/// The links of `text` at the byte spans `spans`, standing at `position`,
/// each with a fresh identifier and the time it was found.
pub fn links_at_spans(text: &str, spans: &Vec<(usize, usize)>, position: (u32, u32)) -> (r: Vec<
    DetectedLink,
>)
    requires
        spans_well_placed(text.spec_bytes(), spans@),
    ensures
        r.len() == spans.len(),
        forall|i: int|
            0 <= i < r.len() ==> link_at(text.spec_bytes(), spans@[i], position, #[trigger] r@[i]),
{
    let mut r: Vec<DetectedLink> = Vec::new();
    let mut k: usize = 0;
    while k < spans.len()
        invariant
            k <= spans.len(),
            spans_well_placed(text.spec_bytes(), spans@),
            r.len() == k,
            forall|i: int|
                0 <= i < k ==> link_at(text.spec_bytes(), spans@[i], position, #[trigger] r@[i]),
        decreases spans.len() - k,
    {
        let (start, end) = spans[k];
        let url = span_text(text, start, end);
        let link_type = determine_link_type(url.as_str());
        let link = DetectedLink {
            id: new_uuid(),
            url,
            link_type,
            position,
            start_offset: start,
            end_offset: end,
            detected_at: utc_now_millis(),
            click_count: 0,
        };
        r.push(link);
        k = k + 1;
    }
    r
}

/// Why a click on a link was not carried out.
#[derive(Debug, Clone, Copy, PartialEq, Eq, Structural)]
pub enum LinkError {
    /// No link has the identifier
    NotFound,
    /// No handler opens links of the link's kind
    NoHandler,
}

/// `a` and `b` are the same link record, the text compared by content.
pub open spec fn same_link(a: DetectedLink, b: DetectedLink) -> bool {
    &&& a.id == b.id
    &&& a.url@ == b.url@
    &&& a.link_type == b.link_type
    &&& a.position == b.position
    &&& a.start_offset == b.start_offset
    &&& a.end_offset == b.end_offset
    &&& a.detected_at == b.detected_at
    &&& a.click_count == b.click_count
}

impl Clone for DetectedLink {
    /// A copy of the link.
    fn clone(&self) -> (c: Self)
        ensures
            same_link(c, *self),
    {
        DetectedLink {
            id: self.id,
            url: self.url.clone(),
            link_type: self.link_type,
            position: self.position,
            start_offset: self.start_offset,
            end_offset: self.end_offset,
            detected_at: self.detected_at,
            click_count: self.click_count,
        }
    }
}

/// The links of `ls` of kind `t`, in order.
pub open spec fn links_of_type(ls: Seq<DetectedLink>, t: HyperlinkType) -> Seq<DetectedLink>
    decreases ls.len(),
{
    if ls.len() == 0 {
        seq![]
    } else if ls.last().link_type == t {
        links_of_type(ls.drop_last(), t).push(ls.last())
    } else {
        links_of_type(ls.drop_last(), t)
    }
}

/// The index of the first link of `ls` with identifier `id`.
pub open spec fn link_index(ls: Seq<DetectedLink>, id: uuid::Uuid) -> Option<int> {
    if exists|i: int| 0 <= i < ls.len() && ls[i].id == id {
        Some(choose|i: int| 0 <= i < ls.len() && ls[i].id == id && forall|j: int| 0 <= j < i ==> ls[j].id != id)
    } else {
        None
    }
}

/// The launch a click on a link of kind `t` to `url` makes, if a handler
/// opens links of that kind: the default handlers run `xdg-open` for web,
/// FTP and file links and `xdg-email` for mail links.
pub open spec fn click_launch(t: HyperlinkType, url: Seq<char>) -> Option<(Seq<char>, Seq<char>, Seq<char>)> {
    match t {
        HyperlinkType::Http => Some(("xdg-open"@, url, "Failed to open URL: "@ + url)),
        HyperlinkType::Ftp => Some(("xdg-open"@, url, "Failed to open FTP URL: "@ + url)),
        HyperlinkType::File => Some(("xdg-open"@, url, "Failed to open file: "@ + url)),
        HyperlinkType::Mailto => Some(("xdg-email"@, url, "Failed to open mailto link: "@ + url)),
        _ => None,
    }
}

/// Finds links in text and carries out clicks on them.
pub struct HyperlinkManager {
    detected_links: Vec<DetectedLink>,
    url_patterns: Vec<SearchPattern>,
    link_config: LinkConfig,
}

impl HyperlinkManager {
    /// The texts of the regular expressions links are found by, in order.
    pub closed spec fn patterns(self) -> Seq<Seq<char>> {
        self.url_patterns@.map_values(|p: SearchPattern| p@)
    }

    /// The links found so far, in the order they were found.
    pub closed spec fn links(self) -> Seq<DetectedLink> {
        self.detected_links@
    }

    /// The link configuration.
    pub closed spec fn config(self) -> LinkConfig {
        self.link_config
    }

    /// The expressions for web, FTP, file and mail links.
    pub open spec fn default_patterns() -> Seq<Seq<char>> {
        seq!["https?://[^\\s]+"@, "ftp://[^\\s]+"@, "file://[^\\s]+"@, "mailto:[^\\s]+"@]
    }

    /// A manager with no links, finding links by `default_patterns`, with
    /// detection, clicking and highlighting on, links of at most 2048 bytes
    /// and a 30 second timeout; fails when one of the expressions does not
    /// compile.
    pub fn new() -> (r: Result<Self, SearchError>)
        ensures
            match r {
                Ok(m) => m.patterns() == Self::default_patterns() && m.links().len() == 0
                    && m.config() == (LinkConfig {
                    enable_detection: true,
                    enable_clicking: true,
                    enable_highlighting: true,
                    max_link_length: 2048,
                    link_timeout: 30,
                }),
                Err(e) => e == SearchError::InvalidPattern && !(forall|i: int|
                    0 <= i < 4 ==> regex_compiles(#[trigger] Self::default_patterns()[i])),
            },
    {
        let mut url_patterns: Vec<SearchPattern> = Vec::new();
        let sources = ["https?://[^\\s]+", "ftp://[^\\s]+", "file://[^\\s]+", "mailto:[^\\s]+"];
        let mut k: usize = 0;
        while k < 4
            invariant
                k <= 4,
                sources@ == seq!["https?://[^\\s]+", "ftp://[^\\s]+", "file://[^\\s]+", "mailto:[^\\s]+"],
                url_patterns.len() == k,
                forall|i: int| 0 <= i < k ==> (#[trigger] url_patterns@[i])@ == sources@[i]@,
            decreases 4 - k,
        {
            match SearchPattern::compile(sources[k]) {
                Ok(p) => url_patterns.push(p),
                Err(e) => {
                    proof {
                        assert(Self::default_patterns()[k as int] == sources@[k as int]@);
                    }
                    return Err(e);
                },
            }
            k = k + 1;
        }
        let m = HyperlinkManager {
            detected_links: Vec::new(),
            url_patterns,
            link_config: LinkConfig {
                enable_detection: true,
                enable_clicking: true,
                enable_highlighting: true,
                max_link_length: 2048,
                link_timeout: 30,
            },
        };
        assert(m.patterns() =~= Self::default_patterns());
        Ok(m)
    }

    /// Finds the links in `text`, standing at `position`: for each pattern in
    /// order, its matches in order. They are kept, after the links found
    /// before, and returned.
    pub fn detect_links(&mut self, text: &str, position: (u32, u32)) -> (r: Vec<DetectedLink>)
        ensures
            r.len() == link_spans(old(self).patterns(), text@).len(),
            forall|i: int|
                0 <= i < r.len() ==> link_at(
                    text.spec_bytes(),
                    link_spans(old(self).patterns(), text@)[i],
                    position,
                    #[trigger] r@[i],
                ),
            final(self).patterns() == old(self).patterns(),
            final(self).config() == old(self).config(),
            final(self).links().len() == old(self).links().len() + r.len(),
            forall|i: int|
                0 <= i < old(self).links().len()
                    ==> #[trigger] final(self).links()[i] == old(self).links()[i],
            forall|i: int|
                0 <= i < r.len() ==> same_link(
                    #[trigger] final(self).links()[old(self).links().len() + i],
                    r@[i],
                ),
    {
        let ghost ps = self.patterns();
        let ghost b = text.spec_bytes();
        let mut r: Vec<DetectedLink> = Vec::new();
        let mut k: usize = 0;
        while k < self.url_patterns.len()
            invariant
                k <= self.url_patterns.len(),
                ps == self.patterns(),
                b == text.spec_bytes(),
                r.len() == link_spans(ps.take(k as int), text@).len(),
                forall|i: int|
                    0 <= i < r.len() ==> link_at(
                        b,
                        link_spans(ps.take(k as int), text@)[i],
                        position,
                        #[trigger] r@[i],
                    ),
            decreases self.url_patterns.len() - k,
        {
            let spans = find_spans(&self.url_patterns[k], text);
            let mut batch = links_at_spans(text, &spans, position);
            proof {
                assert(ps.take(k + 1).drop_last() =~= ps.take(k as int));
                assert(ps.take(k + 1).last() == self.url_patterns@[k as int]@);
                let prev = link_spans(ps.take(k as int), text@);
                assert(link_spans(ps.take(k + 1), text@) == prev + spans@);
                assert forall|i: int| 0 <= i < r.len() + batch.len() implies link_at(
                    b,
                    link_spans(ps.take(k + 1), text@)[i],
                    position,
                    #[trigger] (r@ + batch@)[i],
                ) by {
                    if i < r.len() {
                        assert((r@ + batch@)[i] == r@[i]);
                    } else {
                        assert((r@ + batch@)[i] == batch@[i - r.len()]);
                    }
                }
            }
            r.append(&mut batch);
            k = k + 1;
        }
        assert(ps.take(k as int) =~= ps);
        let ghost before = self.detected_links@;
        let mut j: usize = 0;
        while j < r.len()
            invariant
                j <= r.len(),
                ps == self.patterns(),
                self.link_config == old(self).link_config,
                self.detected_links@.len() == before.len() + j,
                forall|i: int| 0 <= i < before.len() ==> #[trigger] self.detected_links@[i] == before[i],
                forall|i: int|
                    0 <= i < j ==> same_link(#[trigger] self.detected_links@[before.len() + i], r@[i]),
            decreases r.len() - j,
        {
            let c = r[j].clone();
            self.detected_links.push(c);
            j = j + 1;
        }
        r
    }

    /// The links found so far of kind `link_type`, in the order they were
    /// found.
    pub fn get_links_by_type(&self, link_type: HyperlinkType) -> (r: Vec<DetectedLink>)
        ensures
            r.len() == links_of_type(self.links(), link_type).len(),
            forall|i: int|
                0 <= i < r.len() ==> same_link(
                    #[trigger] r@[i],
                    links_of_type(self.links(), link_type)[i],
                ),
    {
        let mut r: Vec<DetectedLink> = Vec::new();
        let mut k: usize = 0;
        while k < self.detected_links.len()
            invariant
                k <= self.detected_links.len(),
                r.len() == links_of_type(self.links().take(k as int), link_type).len(),
                forall|i: int|
                    0 <= i < r.len() ==> same_link(
                        #[trigger] r@[i],
                        links_of_type(self.links().take(k as int), link_type)[i],
                    ),
            decreases self.detected_links.len() - k,
        {
            assert(self.links().take(k + 1).drop_last() =~= self.links().take(k as int));
            if self.detected_links[k].link_type == link_type {
                let c = self.detected_links[k].clone();
                r.push(c);
            }
            k = k + 1;
        }
        assert(self.links().take(k as int) =~= self.links());
        r
    }

    /// The times the links were found, in the order they were found.
    pub open spec fn link_times(self) -> Seq<i64> {
        self.links().map_values(|e: DetectedLink| e.detected_at)
    }

    /// Copies of the links found, from the earliest found to the latest, links
    /// found at the same time in the order they were found.
    pub fn get_all_links(&self) -> (r: Vec<DetectedLink>)
        ensures
            r.len() == self.links().len(),
            exists|idx: Seq<usize>|
                #[trigger] by_time(self.link_times(), idx) && forall|a: int|
                    0 <= a < r.len() ==> same_link(#[trigger] r@[a], self.links()[idx[a] as int]),
    {
        let ghost keys_view = self.link_times();
        let mut keys: Vec<i64> = Vec::new();
        let mut k: usize = 0;
        while k < self.detected_links.len()
            invariant
                k <= self.detected_links.len(),
                keys_view == self.link_times(),
                keys@ == keys_view.take(k as int),
            decreases self.detected_links.len() - k,
        {
            keys.push(self.detected_links[k].detected_at);
            k = k + 1;
            assert(keys@ =~= keys_view.take(k as int));
        }
        assert(keys_view.take(k as int) =~= keys_view);
        let order = time_order(&keys);
        let mut r: Vec<DetectedLink> = Vec::new();
        let mut a: usize = 0;
        while a < order.len()
            invariant
                a <= order.len(),
                by_time(keys@, order@),
                keys@ == self.link_times(),
                r.len() == a,
                forall|b: int| 0 <= b < a ==> same_link(#[trigger] r@[b], self.links()[order@[b] as int]),
            decreases order.len() - a,
        {
            r.push(self.detected_links[order[a]].clone());
            a = a + 1;
        }
        r
    }

    /// Forgets every link found.
    pub fn clear_links(&mut self)
        ensures
            final(self).links().len() == 0,
            final(self).patterns() == old(self).patterns(),
            final(self).config() == old(self).config(),
    {
        self.detected_links = Vec::new();
    }

    /// How many links were found.
    pub fn get_hyperlink_count(&self) -> (n: usize)
        ensures
            n == self.links().len(),
    {
        self.detected_links.len()
    }

    /// A click on the link with identifier `link_id`: counts the click, then
    /// has the handler of the link's kind open it. Fails when no link has
    /// that identifier, or no handler opens links of its kind (the click is
    /// counted all the same).
    pub fn handle_link_click(&mut self, link_id: uuid::Uuid) -> (r: Result<LinkLaunch, LinkError>)
        requires
            forall|i: int|
                0 <= i < old(self).links().len() && (#[trigger] old(self).links()[i]).id == link_id
                    ==> old(self).links()[i].click_count < u32::MAX,
        ensures
            final(self).patterns() == old(self).patterns(),
            final(self).config() == old(self).config(),
            final(self).links().len() == old(self).links().len(),
            match link_index(old(self).links(), link_id) {
                None => r == Err::<LinkLaunch, LinkError>(LinkError::NotFound) && final(self).links()
                    == old(self).links(),
                Some(k) => {
                    let l = old(self).links()[k];
                    &&& forall|i: int|
                        0 <= i < old(self).links().len() && i != k
                            ==> #[trigger] final(self).links()[i] == old(self).links()[i]
                    &&& same_link(
                        final(self).links()[k],
                        DetectedLink { click_count: (l.click_count + 1) as u32, ..l },
                    )
                    &&& match click_launch(l.link_type, l.url@) {
                        None => r == Err::<LinkLaunch, LinkError>(LinkError::NoHandler),
                        Some(x) => r matches Ok(launch) && launch.program@ == x.0
                            && launch.argument@ == x.1 && launch.failure_message@ == x.2,
                    }
                },
            },
    {
        let mut k: usize = 0;
        while k < self.detected_links.len()
            invariant
                k <= self.detected_links.len(),
                self.detected_links@ == old(self).detected_links@,
                forall|j: int| 0 <= j < k ==> (#[trigger] self.detected_links@[j]).id != link_id,
            ensures
                k <= self.detected_links.len(),
                self.detected_links@ == old(self).detected_links@,
                forall|j: int| 0 <= j < k ==> (#[trigger] self.detected_links@[j]).id != link_id,
                k < self.detected_links.len() ==> self.detected_links@[k as int].id == link_id,
            decreases self.detected_links.len() - k,
        {
            if same_uuid(&self.detected_links[k].id, &link_id) {
                break;
            }
            k = k + 1;
        }
        if k == self.detected_links.len() {
            return Err(LinkError::NotFound);
        }
        proof {
            let ls = old(self).links();
            assert(ls[k as int].id == link_id);
            let c = choose|i: int| 0 <= i < ls.len() && ls[i].id == link_id && forall|j: int|
                0 <= j < i ==> ls[j].id != link_id;
            assert(c == k);
        }
        let mut link = self.detected_links[k].clone();
        link.click_count = link.click_count + 1;
        let url = link.url.clone();
        let link_type = link.link_type;
        self.detected_links.set(k, link);
        match link_type {
            HyperlinkType::Http => Ok(HttpLinkHandler::new().handle_click(url.as_str())),
            HyperlinkType::Ftp => Ok(FtpLinkHandler::new().handle_click(url.as_str())),
            HyperlinkType::File => Ok(FileLinkHandler::new().handle_click(url.as_str())),
            HyperlinkType::Mailto => Ok(MailtoLinkHandler::new().handle_click(url.as_str())),
            _ => Err(LinkError::NoHandler),
        }
    }
}

} // verus!
