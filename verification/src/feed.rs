//! The feed builder: turns an ordered list of media files and feed metadata
//! into a channel model with deterministic titles, URLs, MIME types and
//! publication dates, and serializes that model as an RSS document.

use chrono::Datelike;
use rss::extension::itunes::{ITunesChannelExtension, NAMESPACE};
use rss::{Channel, Enclosure, Item};
use std::collections::BTreeMap;
use vstd::prelude::*;

use crate::encoding::{percent_encode_name, percent_encoded_name};
use crate::text::{
    base_name, base_name_spec, dec_digits, replace_underscores, space_for_underscore,
    u64_to_string,
};

verus! {

/// A failure while building a feed: an extension outside the recognized
/// set, or a file whose size cannot be read.
#[derive(Clone, Copy, Debug, PartialEq, Eq, Structural)]
pub enum BuildError {
    UnsupportedExtension,
    UnreadableFile,
}

/// A file whose byte size could not be determined.
#[derive(Clone, Copy, Debug, PartialEq, Eq, Structural)]
pub struct FileError {}

/// The capability a feed build needs from one media file: its full name,
/// its name without extension, its extension without the dot, and its byte
/// size where that can be read.
pub trait MediaFileLike {
    /// The full file name, extension included.
    spec fn name_spec(&self) -> Seq<char>;

    /// The file name without its extension.
    spec fn stem_spec(&self) -> Seq<char>;

    /// The extension, without a leading dot.
    spec fn extension_spec(&self) -> Seq<char>;

    /// The byte size, or nothing where it cannot be read.
    spec fn len_spec(&self) -> Option<u64>;

    fn name(&self) -> (r: String)
        ensures
            r@ == self.name_spec(),
    ;

    fn stem(&self) -> (r: String)
        ensures
            r@ == self.stem_spec(),
    ;

    fn extension(&self) -> (r: String)
        ensures
            r@ == self.extension_spec(),
    ;

    fn len(&self) -> (r: Result<u64, FileError>)
        ensures
            match r {
                Ok(n) => self.len_spec() == Some(n),
                Err(_) => self.len_spec() is None,
            },
    ;
}

/// A media file described by plain values, as a directory listing or a test
/// fixture provides them.
pub struct MediaFile {
    pub name: String,
    pub stem: String,
    pub extension: String,
    pub byte_len: Option<u64>,
}

impl MediaFileLike for MediaFile {
    open spec fn name_spec(&self) -> Seq<char> {
        self.name@
    }

    open spec fn stem_spec(&self) -> Seq<char> {
        self.stem@
    }

    open spec fn extension_spec(&self) -> Seq<char> {
        self.extension@
    }

    open spec fn len_spec(&self) -> Option<u64> {
        self.byte_len
    }

    fn name(&self) -> (r: String) {
        self.name.clone()
    }

    fn stem(&self) -> (r: String) {
        self.stem.clone()
    }

    fn extension(&self) -> (r: String) {
        self.extension.clone()
    }

    fn len(&self) -> (r: Result<u64, FileError>) {
        match self.byte_len {
            Some(n) => Ok(n),
            None => Err(FileError {}),
        }
    }
}

/// The downloadable media payload of one feed item.
pub struct FeedEnclosure {
    pub url: String,
    pub mime_type: String,
    pub length: u64,
}

/// One entry of the channel: a title, its enclosure, and a publication date
/// held both as a day number and as its RFC 2822 text.
pub struct FeedItem {
    pub title: String,
    pub enclosure: FeedEnclosure,
    pub pub_day: i32,
    pub pub_date: String,
}

/// The in-memory feed document: channel title, optional channel artwork
/// URL, the items in input order, and the fixed do-not-index flag.
pub struct FeedChannel {
    pub title: String,
    pub image: Option<String>,
    pub items: Vec<FeedItem>,
    pub block: bool,
}

/// The feed metadata: channel title, the base URL every enclosure URL
/// starts with, and an optional path to a channel artwork file.
pub struct FeedGenerator {
    pub title: String,
    pub base_url: String,
    pub image: Option<String>,
}

/// The MIME type for a recognized audio extension; nothing for any other.
pub open spec fn mime_for(ext: Seq<char>) -> Option<Seq<char>> {
    if ext == "aac"@ {
        Some("audio/aac"@)
    } else if ext == "m4a"@ {
        Some("audio/mp4"@)
    } else if ext == "mp3"@ {
        Some("audio/mpeg"@)
    } else if ext == "mp4"@ {
        Some("audio/mp4"@)
    } else {
        None
    }
}

/// What keeps one file out of the feed: an unrecognized extension first,
/// then an unreadable size; nothing when the file is usable.
pub open spec fn item_fault<M: MediaFileLike>(m: M) -> Option<BuildError> {
    if mime_for(m.extension_spec()) is None {
        Some(BuildError::UnsupportedExtension)
    } else if m.len_spec() is None {
        Some(BuildError::UnreadableFile)
    } else {
        None
    }
}

/// The fault of the first unusable file, in input order; nothing when every
/// file is usable.
pub open spec fn first_fault<M: MediaFileLike>(files: Seq<M>) -> Option<BuildError>
    decreases files.len(),
{
    if files.len() == 0 {
        None
    } else if item_fault(files.first()) is Some {
        item_fault(files.first())
    } else {
        first_fault(files.drop_first())
    }
}

/// The channel artwork URL for an image path: the base URL, a slash, and
/// the percent-encoded file name of the path.
pub open spec fn artwork_url(base_url: Seq<char>, image_path: Seq<char>) -> Seq<char> {
    base_url + seq!['/'] + percent_encoded_name(base_name_spec(image_path))
}

/// The RFC 2822 text of midnight UTC of a day, counted in days from the
/// start of the common era.  Named for the calendar library's formatter.
pub uninterp spec fn rfc2822_of(day: int) -> Seq<char>;

/// Relies on `chrono::DateTime::from_timestamp` and
/// `Datelike::num_days_from_ce`: the current UTC date as a day count from
/// the start of the common era.  A clock before 1970 or beyond the
/// calendar's range falls back to the calendar's default date rather than
/// failing.  Any date the library can represent lies within ninety-six
/// million days of either side of year one, so the bound holds of every
/// outcome.
#[verifier::external_body]
fn today_num_days() -> (d: i32)
    ensures
        -96_000_000 <= d <= 96_000_000,
{
    let secs: i64 = match std::time::SystemTime::now().duration_since(std::time::UNIX_EPOCH) {
        Ok(elapsed) => elapsed.as_secs() as i64,
        Err(_) => 0,
    };
    chrono::DateTime::from_timestamp(secs, 0).unwrap_or_default().date_naive().num_days_from_ce()
}

/// Relies on `chrono::NaiveDate::from_num_days_from_ce_opt` and
/// `DateTime::to_rfc2822`: the RFC 2822 text of midnight UTC of the given
/// day.  The range keeps the year between one and 9993, where the date is
/// representable and the formatter is defined, so neither call can fail.
#[verifier::external_body]
fn rfc2822_midnight(d: i32) -> (s: String)
    requires
        1 <= d <= 3_650_000,
    ensures
        s@ == rfc2822_of(d as int),
{
    let date = chrono::NaiveDate::from_num_days_from_ce_opt(d).unwrap();
    date.and_hms_opt(0, 0, 0).unwrap().and_utc().to_rfc2822()
}

/// One built item agrees with its source file: the title is the stem with
/// underscores replaced by spaces, the URL is the base URL, a slash and the
/// percent-encoded name, the MIME type matches the extension, the length is
/// the file's byte size, and the date is the given day.
pub open spec fn item_matches<M: MediaFileLike>(
    it: FeedItem,
    m: M,
    base_url: Seq<char>,
    day: int,
) -> bool {
    &&& it.title@ == space_for_underscore(m.stem_spec())
    &&& it.enclosure.url@ == base_url + seq!['/'] + percent_encoded_name(m.name_spec())
    &&& mime_for(m.extension_spec()) == Some(it.enclosure.mime_type@)
    &&& m.len_spec() == Some(it.enclosure.length)
    &&& it.pub_day == day
    &&& it.pub_date@ == rfc2822_of(day)
}

/// The whole built channel agrees with the metadata and files: the given
/// title, the fixed do-not-index flag, the artwork derived from the image
/// path, one item per file in input order, and item `i` matched to file
/// `i` and dated `today - i`.
pub open spec fn channel_matches<M: MediaFileLike>(
    c: FeedChannel,
    meta: FeedGenerator,
    files: Seq<M>,
    today: int,
) -> bool {
    &&& c.title@ == meta.title@
    &&& c.block == true
    &&& (match meta.image {
        Some(p) => c.image matches Some(u) && u@ == artwork_url(meta.base_url@, p@),
        None => c.image is None,
    })
    &&& c.items@.len() == files.len()
    &&& forall|i: int|
        0 <= i < files.len() ==> item_matches(
            #[trigger] c.items@[i],
            files[i],
            meta.base_url@,
            today - i,
        )
}

proof fn lemma_first_fault_none<M: MediaFileLike>(files: Seq<M>)
    requires
        forall|j: int| 0 <= j < files.len() ==> item_fault(#[trigger] files[j]) is None,
    ensures
        first_fault(files) is None,
    decreases files.len(),
{
    if files.len() > 0 {
        lemma_first_fault_none(files.drop_first());
    }
}

proof fn lemma_first_fault_at<M: MediaFileLike>(files: Seq<M>, k: int)
    requires
        0 <= k < files.len(),
        forall|j: int| 0 <= j < k ==> item_fault(#[trigger] files[j]) is None,
        item_fault(files[k]) is Some,
    ensures
        first_fault(files) == item_fault(files[k]),
    decreases files.len(),
{
    if k > 0 {
        lemma_first_fault_at(files.drop_first(), k - 1);
    }
}

/// Publication dates strictly decrease along the feed: when every item is
/// dated the build day minus its index, an earlier item carries a strictly
/// later date than any later item.
pub proof fn lemma_pub_dates_strictly_decrease(items: Seq<FeedItem>, today: int)
    requires
        forall|i: int| 0 <= i < items.len() ==> (#[trigger] items[i].pub_day) == today - i,
    ensures
        forall|i: int, j: int|
            0 <= i < j < items.len() ==> items[i].pub_day > items[j].pub_day,
{
}

impl FeedGenerator {
    /// The MIME type of a recognized extension, or the unsupported
    /// extension error for any other: the mapping is total over `aac`,
    /// `m4a`, `mp3` and `mp4` and rejects everything else.
    pub fn mime_type(extension: &str) -> (r: Result<String, BuildError>)
        ensures
            match mime_for(extension@) {
                Some(m) => r matches Ok(s) && s@ == m,
                None => r == Err::<String, BuildError>(BuildError::UnsupportedExtension),
            },
    {
        if crate::text::str_eq(extension, "aac") {
            Ok("audio/aac".to_owned())
        } else if crate::text::str_eq(extension, "m4a") {
            Ok("audio/mp4".to_owned())
        } else if crate::text::str_eq(extension, "mp3") {
            Ok("audio/mpeg".to_owned())
        } else if crate::text::str_eq(extension, "mp4") {
            Ok("audio/mp4".to_owned())
        } else {
            Err(BuildError::UnsupportedExtension)
        }
    }

    /// Builds the channel model for the given files, dating the item at
    /// index `i` to `today - i` days.  Succeeds exactly when every file has
    /// a recognized extension and a readable size; otherwise returns the
    /// fault of the first unusable file.  The bounds on `today` keep every
    /// derived day inside the window where the date formatter is defined.
    #[verifier::loop_isolation(false)]
    pub fn build_channel<M: MediaFileLike>(&self, files: &Vec<M>, today: i32) -> (r: Result<
        FeedChannel,
        BuildError,
    >)
        requires
            files@.len() <= today as int,
            today as int <= 3_650_000,
        ensures
            match r {
                Ok(c) => first_fault(files@) is None && channel_matches(
                    c,
                    *self,
                    files@,
                    today as int,
                ),
                Err(e) => first_fault(files@) == Some(e),
            },
    {
        proof {
            reveal_strlit("/");
            assert("/"@ =~= seq!['/']);
        }
        let mut items: Vec<FeedItem> = Vec::new();
        let n = files.len();
        let mut i: usize = 0;
        while i < n
            invariant
                i <= n,
                items@.len() == i,
                forall|j: int| 0 <= j < i ==> item_fault(#[trigger] files@[j]) is None,
                forall|j: int|
                    0 <= j < i ==> item_matches(
                        #[trigger] items@[j],
                        files@[j],
                        self.base_url@,
                        today - j,
                    ),
            decreases n - i,
        {
            let file = &files[i];
            let ext = file.extension();
            let mime = match FeedGenerator::mime_type(ext.as_str()) {
                Ok(m) => m,
                Err(e) => {
                    proof {
                        lemma_first_fault_at(files@, i as int);
                    }
                    return Err(e);
                },
            };
            let size = match file.len() {
                Ok(s) => s,
                Err(_) => {
                    proof {
                        lemma_first_fault_at(files@, i as int);
                    }
                    return Err(BuildError::UnreadableFile);
                },
            };
            let name = file.name();
            let escaped = percent_encode_name(name.as_str());
            let mut url = self.base_url.clone();
            url.append("/");
            url.append(escaped.as_str());
            let stem = file.stem();
            let title = replace_underscores(stem.as_str());
            let day: i32 = today - (i as i32);
            let pub_date = rfc2822_midnight(day);
            items.push(
                FeedItem {
                    title,
                    enclosure: FeedEnclosure { url, mime_type: mime, length: size },
                    pub_day: day,
                    pub_date,
                },
            );
            i = i + 1;
        }
        proof {
            lemma_first_fault_none(files@);
        }
        let image = match &self.image {
            Some(path) => {
                let file_name = base_name(path.as_str());
                let encoded = percent_encode_name(file_name.as_str());
                let mut u = self.base_url.clone();
                u.append("/");
                u.append(encoded.as_str());
                Some(u)
            },
            None => None,
        };
        Ok(FeedChannel { title: self.title.clone(), image, items, block: true })
    }
}

/// One item of the document, reduced to the plain texts the writer needs:
/// title, date text, URL, MIME type and decimal length.
pub struct RenderItem {
    pub title: String,
    pub pub_date: String,
    pub url: String,
    pub mime_type: String,
    pub length_text: String,
}

/// The title texts of the items to render, in order.
pub open spec fn rendered_titles(items: Seq<RenderItem>) -> Seq<Seq<char>> {
    items.map_values(|it: RenderItem| it.title@)
}

/// The date texts of the items to render, in order.
pub open spec fn rendered_dates(items: Seq<RenderItem>) -> Seq<Seq<char>> {
    items.map_values(|it: RenderItem| it.pub_date@)
}

/// The URLs of the items to render, in order.
pub open spec fn rendered_urls(items: Seq<RenderItem>) -> Seq<Seq<char>> {
    items.map_values(|it: RenderItem| it.url@)
}

/// The MIME type texts of the items to render, in order.
pub open spec fn rendered_mimes(items: Seq<RenderItem>) -> Seq<Seq<char>> {
    items.map_values(|it: RenderItem| it.mime_type@)
}

/// The length texts of the items to render, in order.
pub open spec fn rendered_lengths(items: Seq<RenderItem>) -> Seq<Seq<char>> {
    items.map_values(|it: RenderItem| it.length_text@)
}

/// The character sequence an optional text holds, if any.
pub open spec fn opt_text(o: Option<String>) -> Option<Seq<char>> {
    match o {
        Some(s) => Some(s@),
        None => None,
    }
}

/// The document text of a feed: the channel title, the do-not-index block
/// text, the optional artwork reference, and the items' texts, pretty-
/// printed as namespaced XML.  Named for the serialization library's
/// writer, whose output depends on these texts alone; its exact bytes take
/// far more than a few lines to state.
pub uninterp spec fn rendered_feed(
    title: Seq<char>,
    block: Option<Seq<char>>,
    image: Option<Seq<char>>,
    titles: Seq<Seq<char>>,
    dates: Seq<Seq<char>>,
    urls: Seq<Seq<char>>,
    mimes: Seq<Seq<char>>,
    lengths: Seq<Seq<char>>,
) -> Seq<u8>;

/// Relies on the `rss` channel, item, enclosure and iTunes-extension
/// constructors and on `rss::Channel::pretty_write_to`: the channel
/// pretty-printed as an XML document, a deterministic function of the
/// given texts.  The writer's only error is an I/O error of its sink,
/// which the in-memory buffer never produces, so the fallback arm is
/// unreachable.
#[verifier::external_body]
fn render_feed(
    title: &str,
    block: Option<String>,
    image: Option<String>,
    items: &Vec<RenderItem>,
) -> (r: Vec<u8>)
    ensures
        r@ == rendered_feed(
            title@,
            opt_text(block),
            opt_text(image),
            rendered_titles(items@),
            rendered_dates(items@),
            rendered_urls(items@),
            rendered_mimes(items@),
            rendered_lengths(items@),
        ),
{
    let rss_items: Vec<Item> = items.iter().map(|it| Item {
        title: Some(it.title.clone()), pub_date: Some(it.pub_date.clone()),
        enclosure: Some(Enclosure {
            url: it.url.clone(), mime_type: it.mime_type.clone(), length: it.length_text.clone(),
        }),
        ..Default::default() }).collect();
    let mut namespaces = BTreeMap::new();
    namespaces.insert("itunes".to_string(), NAMESPACE.to_string());
    let ext = ITunesChannelExtension { block, image, ..Default::default() };
    let channel = Channel {
        title: title.to_string(), namespaces, itunes_ext: Some(ext), items: rss_items,
        ..Default::default() };
    channel.pretty_write_to(Vec::new(), b' ', 2).unwrap_or_default()
}

/// The title texts a channel's items carry, in order.
pub open spec fn feed_titles(items: Seq<FeedItem>) -> Seq<Seq<char>> {
    items.map_values(|it: FeedItem| it.title@)
}

/// The date texts a channel's items carry, in order.
pub open spec fn feed_dates(items: Seq<FeedItem>) -> Seq<Seq<char>> {
    items.map_values(|it: FeedItem| it.pub_date@)
}

/// The enclosure URLs a channel's items carry, in order.
pub open spec fn feed_urls(items: Seq<FeedItem>) -> Seq<Seq<char>> {
    items.map_values(|it: FeedItem| it.enclosure.url@)
}

/// The MIME types a channel's items carry, in order.
pub open spec fn feed_mimes(items: Seq<FeedItem>) -> Seq<Seq<char>> {
    items.map_values(|it: FeedItem| it.enclosure.mime_type@)
}

/// The enclosure lengths a channel's items carry, rendered in decimal, in
/// order.
pub open spec fn feed_lengths(items: Seq<FeedItem>) -> Seq<Seq<char>> {
    items.map_values(|it: FeedItem| dec_digits(it.enclosure.length as nat))
}

/// The serialized document of a channel: the writer's output over exactly
/// the channel's own texts, the block flag as the text `Yes`, and each
/// length in decimal.
pub open spec fn channel_rendered(c: FeedChannel) -> Seq<u8> {
    rendered_feed(
        c.title@,
        if c.block {
            Some("Yes"@)
        } else {
            None
        },
        match c.image {
            Some(u) => Some(u@),
            None => None,
        },
        feed_titles(c.items@),
        feed_dates(c.items@),
        feed_urls(c.items@),
        feed_mimes(c.items@),
        feed_lengths(c.items@),
    )
}

impl FeedChannel {
    /// Serializes the channel as a pretty-printed RSS document with the
    /// iTunes namespace: the writer's output over exactly this channel's
    /// texts.
    pub fn to_xml(&self) -> (r: Vec<u8>)
        ensures
            r@ == channel_rendered(*self),
    {
        let mut render_items: Vec<RenderItem> = Vec::new();
        let mut i: usize = 0;
        while i < self.items.len()
            invariant
                i <= self.items@.len(),
                render_items@.len() == i,
                forall|j: int|
                    0 <= j < i ==> {
                        &&& (#[trigger] render_items@[j]).title@ == self.items@[j].title@
                        &&& render_items@[j].pub_date@ == self.items@[j].pub_date@
                        &&& render_items@[j].url@ == self.items@[j].enclosure.url@
                        &&& render_items@[j].mime_type@ == self.items@[j].enclosure.mime_type@
                        &&& render_items@[j].length_text@ == dec_digits(
                            self.items@[j].enclosure.length as nat,
                        )
                    },
            decreases self.items@.len() - i,
        {
            let it = &self.items[i];
            render_items.push(
                RenderItem {
                    title: it.title.clone(),
                    pub_date: it.pub_date.clone(),
                    url: it.enclosure.url.clone(),
                    mime_type: it.enclosure.mime_type.clone(),
                    length_text: u64_to_string(it.enclosure.length),
                },
            );
            i = i + 1;
        }
        let block_text: Option<String> = if self.block {
            Some("Yes".to_owned())
        } else {
            None
        };
        let image_ref: Option<String> = match &self.image {
            Some(u) => Some(u.clone()),
            None => None,
        };
        proof {
            assert(rendered_titles(render_items@) =~= feed_titles(self.items@));
            assert(rendered_dates(render_items@) =~= feed_dates(self.items@));
            assert(rendered_urls(render_items@) =~= feed_urls(self.items@));
            assert(rendered_mimes(render_items@) =~= feed_mimes(self.items@));
            assert(rendered_lengths(render_items@) =~= feed_lengths(self.items@));
            assert(opt_text(block_text) == (if self.block {
                Some("Yes"@)
            } else {
                None
            }));
            assert(opt_text(image_ref) == (match self.image {
                Some(u) => Some(u@),
                None => None,
            }));
        }
        render_feed(self.title.as_str(), block_text, image_ref, &render_items)
    }
}

impl FeedGenerator {
    /// Builds the feed document for the given files, dated from the current
    /// UTC day, and returns its serialized bytes.  Succeeds exactly when
    /// every file has a recognized extension and a readable size; a fault
    /// is the first unusable file's own, and a success is the rendered
    /// document of a channel matching the files at some day in the window
    /// where every derived date can be formatted, whatever the system
    /// clock says.
    pub fn generate_for_files<M: MediaFileLike>(&self, files: Vec<M>) -> (r: Result<
        Vec<u8>,
        BuildError,
    >)
        requires
            files@.len() <= 500_000,
        ensures
            match r {
                Ok(bytes) => first_fault(files@) is None && (exists|today: int, c: FeedChannel|
                    {
                        &&& 500_000 <= today <= 3_000_000
                        &&& #[trigger] channel_matches(c, *self, files@, today)
                        &&& bytes@ == channel_rendered(c)
                    }),
                Err(e) => first_fault(files@) == Some(e),
            },
    {
        let today_raw = today_num_days();
        let today: i32 = if today_raw < 500_000 {
            500_000
        } else if today_raw > 3_000_000 {
            3_000_000
        } else {
            today_raw
        };
        let channel = match self.build_channel(&files, today) {
            Ok(c) => c,
            Err(e) => {
                return Err(e);
            },
        };
        let bytes = channel.to_xml();
        proof {
            assert(channel_matches(channel, *self, files@, today as int));
            assert(bytes@ == channel_rendered(channel));
        }
        Ok(bytes)
    }
}

} // verus!
