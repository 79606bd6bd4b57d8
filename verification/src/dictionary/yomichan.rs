//! Schema of a packaged dictionary archive.
//!
//! An archive is a zip container holding one manifest member (`index.json`),
//! zero or more numbered shard members per role (`term_bank_*.json`,
//! `kanji_bank_*.json`, `term_meta_bank_*.json`, `kanji_meta_bank_*.json`,
//! `tag_bank_*.json`), and any number of other members, which are ignored.
//! Each type below carries its abstract view as plain data, so that the whole
//! ingestion has an exact contract.

use vstd::prelude::*;

use crate::json::JsonData;
use crate::json::value_model;
use crate::text::spec_tokens;
use crate::text::split_tokens;

verus! {

/// A token list, decoded eagerly from a string of whitespace-separated
/// values. An empty string decodes to no tokens.
#[derive(Debug, Clone, PartialEq)]
pub struct SpaceSeparatedValues {
    tokens: Vec<String>,
}

impl View for SpaceSeparatedValues {
    type V = Seq<Seq<char>>;

    closed spec fn view(&self) -> Seq<Seq<char>> {
        self.tokens.deep_view()
    }
}

impl DeepView for SpaceSeparatedValues {
    type V = Seq<Seq<char>>;

    open spec fn deep_view(&self) -> Seq<Seq<char>> {
        self.view()
    }
}

impl SpaceSeparatedValues {
    /// Decode a flat field into its tokens.
    pub fn from_text(s: &str) -> (r: Self)
        ensures
            r@ == spec_tokens(s@),
    {
        SpaceSeparatedValues { tokens: split_tokens(s) }
    }

    /// The tokens, in order.
    pub fn as_vec(&self) -> (r: Vec<String>)
        ensures
            r.deep_view() == self@,
    {
        let mut out: Vec<String> = Vec::new();
        let mut i: usize = 0;
        while i < self.tokens.len()
            invariant
                i <= self.tokens.len(),
                out.deep_view() == self.tokens.deep_view().take(i as int),
            decreases self.tokens.len() - i,
        {
            let ghost old_out = out.deep_view();
            out.push(self.tokens[i].clone());
            proof {
                assert(out.deep_view() =~= old_out.push(self.tokens@[i as int]@));
                assert(out.deep_view() =~= self.tokens.deep_view().take(i + 1));
            }
            i = i + 1;
        }
        proof {
            assert(self.tokens.deep_view().take(self.tokens@.len() as int) =~= self@);
        }
        out
    }
}

/// Open statistics of a kanji entry: stat name and stat value pairs, values
/// opaque at this layer.
#[derive(Debug, Clone, PartialEq)]
pub struct Stats(pub Vec<(String, String)>);

impl View for Stats {
    type V = Seq<(Seq<char>, Seq<char>)>;

    open spec fn view(&self) -> Seq<(Seq<char>, Seq<char>)> {
        self.0.deep_view()
    }
}

impl DeepView for Stats {
    type V = Seq<(Seq<char>, Seq<char>)>;

    open spec fn deep_view(&self) -> Seq<(Seq<char>, Seq<char>)> {
        self.view()
    }
}

impl Stats {
    /// The stat names are pairwise distinct: each stat appears once, as in
    /// the JSON object the stats decode from. Decoding establishes this.
    pub open spec fn keys_unique(&self) -> bool {
        forall|i: int, j: int| 0 <= i < j < self@.len() ==> self@[i].0 != self@[j].0
    }
}

/// Information about a single kanji character.
#[derive(Debug, Clone, PartialEq)]
pub struct Kanji {
    /// The character itself.
    pub character: String,
    /// Onyomi readings; empty means no readings.
    pub onyomi: SpaceSeparatedValues,
    /// Kunyomi readings; empty means no readings.
    pub kunyomi: SpaceSeparatedValues,
    /// Tags; empty means no tags.
    pub tags: SpaceSeparatedValues,
    /// Meanings, in order.
    pub meanings: Vec<String>,
    /// Open stats for the character.
    pub stats: Stats,
}

pub ghost struct KanjiData {
    pub character: Seq<char>,
    pub onyomi: Seq<Seq<char>>,
    pub kunyomi: Seq<Seq<char>>,
    pub tags: Seq<Seq<char>>,
    pub meanings: Seq<Seq<char>>,
    pub stats: Seq<(Seq<char>, Seq<char>)>,
}

impl View for Kanji {
    type V = KanjiData;

    open spec fn view(&self) -> KanjiData {
        KanjiData {
            character: self.character@,
            onyomi: self.onyomi@,
            kunyomi: self.kunyomi@,
            tags: self.tags@,
            meanings: self.meanings.deep_view(),
            stats: self.stats@,
        }
    }
}

impl DeepView for Kanji {
    type V = KanjiData;

    open spec fn deep_view(&self) -> KanjiData {
        self.view()
    }
}

/// Payload of a metadata entry: a bare frequency number, or an arbitrarily
/// structured value (pitch-accent data), kept as decoded.
#[derive(Debug, Clone, PartialEq)]
pub enum KanjiMetaMode {
    Freq(u64),
    Pitch(serde_json::Value),
}

/// Payload of a term metadata entry; same shape as for kanji.
#[derive(Debug, Clone, PartialEq)]
pub enum TermMetaMode {
    Freq(u64),
    Pitch(serde_json::Value),
}

/// Abstract payload of a metadata entry.
pub ghost enum MetaPayloadData {
    Freq(u64),
    Structured(JsonData),
}

impl View for KanjiMetaMode {
    type V = MetaPayloadData;

    open spec fn view(&self) -> MetaPayloadData {
        match self {
            KanjiMetaMode::Freq(n) => MetaPayloadData::Freq(*n),
            KanjiMetaMode::Pitch(v) => MetaPayloadData::Structured(value_model(*v)),
        }
    }
}

impl View for TermMetaMode {
    type V = MetaPayloadData;

    open spec fn view(&self) -> MetaPayloadData {
        match self {
            TermMetaMode::Freq(n) => MetaPayloadData::Freq(*n),
            TermMetaMode::Pitch(v) => MetaPayloadData::Structured(value_model(*v)),
        }
    }
}

/// Metadata for a single kanji character.
#[derive(Debug, Clone, PartialEq)]
pub struct KanjiMeta {
    /// Text for the kanji character.
    pub character: String,
    /// Mode label, `"freq"` or `"pitch"` by convention; informational only,
    /// never used to choose the decode path.
    pub mode: String,
    /// The payload.
    pub data: KanjiMetaMode,
}

/// Metadata for a single term.
#[derive(Debug, Clone, PartialEq)]
pub struct TermMeta {
    /// Text for the term.
    pub character: String,
    /// Mode label, `"freq"` or `"pitch"` by convention; informational only,
    /// never used to choose the decode path.
    pub mode: String,
    /// The payload.
    pub data: TermMetaMode,
}

/// Abstract view of a metadata entry, kanji or term.
pub ghost struct MetaEntryData {
    pub character: Seq<char>,
    pub mode: Seq<char>,
    pub data: MetaPayloadData,
}

impl View for KanjiMeta {
    type V = MetaEntryData;

    open spec fn view(&self) -> MetaEntryData {
        MetaEntryData { character: self.character@, mode: self.mode@, data: self.data@ }
    }
}

impl DeepView for KanjiMeta {
    type V = MetaEntryData;

    open spec fn deep_view(&self) -> MetaEntryData {
        self.view()
    }
}

impl View for TermMeta {
    type V = MetaEntryData;

    open spec fn view(&self) -> MetaEntryData {
        MetaEntryData { character: self.character@, mode: self.mode@, data: self.data@ }
    }
}

impl DeepView for TermMeta {
    type V = MetaEntryData;

    open spec fn deep_view(&self) -> MetaEntryData {
        self.view()
    }
}

/// Information about a single term.
#[derive(Debug, Clone, PartialEq)]
pub struct Term {
    /// The text for the term.
    pub expression: String,
    /// Reading of the term; empty means the reading equals the expression.
    pub reading: String,
    /// Tags for the definition.
    pub definition_tags: SpaceSeparatedValues,
    /// Rule identifiers validating deinflection (v1, v5, vs, vk, adj-i);
    /// empty means the term is not inflected.
    pub rules: SpaceSeparatedValues,
    /// Popularity score: negative is rarer, positive is more common; also the
    /// sort key for results.
    pub score: i16,
    /// Definitions for the term, in order.
    pub glossary: Vec<String>,
    /// Sequence number; terms sharing one are grouped for merged display.
    pub sequence: u32,
    /// Tags for the term.
    pub term_tags: SpaceSeparatedValues,
}

pub ghost struct TermData {
    pub expression: Seq<char>,
    pub reading: Seq<char>,
    pub definition_tags: Seq<Seq<char>>,
    pub rules: Seq<Seq<char>>,
    pub score: i16,
    pub glossary: Seq<Seq<char>>,
    pub sequence: u32,
    pub term_tags: Seq<Seq<char>>,
}

impl View for Term {
    type V = TermData;

    open spec fn view(&self) -> TermData {
        TermData {
            expression: self.expression@,
            reading: self.reading@,
            definition_tags: self.definition_tags@,
            rules: self.rules@,
            score: self.score,
            glossary: self.glossary.deep_view(),
            sequence: self.sequence,
            term_tags: self.term_tags@,
        }
    }
}

impl DeepView for Term {
    type V = TermData;

    open spec fn deep_view(&self) -> TermData {
        self.view()
    }
}

/// Information about a single tag.
#[derive(Debug, Clone, PartialEq)]
pub struct Tag {
    /// Tag name.
    pub name: String,
    /// Category for the tag.
    pub category: String,
    /// Sorting order for the tag.
    pub order: i16,
    /// Notes for the tag.
    pub notes: String,
    /// Popularity score, as for terms.
    pub score: i16,
}

pub ghost struct TagData {
    pub name: Seq<char>,
    pub category: Seq<char>,
    pub order: i16,
    pub notes: Seq<char>,
    pub score: i16,
}

impl View for Tag {
    type V = TagData;

    open spec fn view(&self) -> TagData {
        TagData {
            name: self.name@,
            category: self.category@,
            order: self.order,
            notes: self.notes@,
            score: self.score,
        }
    }
}

impl DeepView for Tag {
    type V = TagData;

    open spec fn deep_view(&self) -> TagData {
        self.view()
    }
}

/// The manifest member, describing the dictionary as a whole.
#[derive(Debug, Clone, PartialEq)]
pub struct Index {
    /// Title of the dictionary.
    pub title: String,
    /// Revision of the dictionary; displayed only.
    pub revision: String,
    /// Whether the dictionary carries sequencing information for related
    /// terms; advisory only, independent of shard contents.
    pub sequenced: Option<bool>,
    /// Format of the data files. The member may spell this as `format` or as
    /// its alias `version`; the two are normalized here into one logical
    /// field, the `format` spelling winning where both are present.
    pub format: Option<u8>,
    /// Creator of the dictionary.
    pub author: Option<String>,
    /// URL for the source of the dictionary.
    pub url: Option<String>,
    /// Description of the dictionary data.
    pub description: Option<String>,
    /// Attribution for the dictionary data.
    pub attribution: Option<String>,
    /// The frequency mode used for the dictionary.
    pub frequency_mode: Option<String>,
}

pub ghost struct IndexData {
    pub title: Seq<char>,
    pub revision: Seq<char>,
    pub sequenced: Option<bool>,
    pub format: Option<u8>,
    pub author: Option<Seq<char>>,
    pub url: Option<Seq<char>>,
    pub description: Option<Seq<char>>,
    pub attribution: Option<Seq<char>>,
    pub frequency_mode: Option<Seq<char>>,
}

impl View for Index {
    type V = IndexData;

    open spec fn view(&self) -> IndexData {
        IndexData {
            title: self.title@,
            revision: self.revision@,
            sequenced: self.sequenced,
            format: self.format,
            author: self.author.deep_view(),
            url: self.url.deep_view(),
            description: self.description.deep_view(),
            attribution: self.attribution.deep_view(),
            frequency_mode: self.frequency_mode.deep_view(),
        }
    }
}

impl DeepView for Index {
    type V = IndexData;

    open spec fn deep_view(&self) -> IndexData {
        self.view()
    }
}

/// The fully merged, immutable result of ingesting one archive: the manifest
/// and the five accumulated collections. An empty collection is valid.
#[derive(Debug, Clone, PartialEq)]
pub struct Dictionary {
    pub index: Index,
    pub kanji: Vec<Kanji>,
    pub kanji_meta: Vec<KanjiMeta>,
    pub terms: Vec<Term>,
    pub term_meta: Vec<TermMeta>,
    pub tag_meta: Vec<Tag>,
}

pub ghost struct DictionaryData {
    pub index: IndexData,
    pub kanji: Seq<KanjiData>,
    pub kanji_meta: Seq<MetaEntryData>,
    pub terms: Seq<TermData>,
    pub term_meta: Seq<MetaEntryData>,
    pub tag_meta: Seq<TagData>,
}

impl View for Dictionary {
    type V = DictionaryData;

    open spec fn view(&self) -> DictionaryData {
        DictionaryData {
            index: self.index@,
            kanji: self.kanji.deep_view(),
            kanji_meta: self.kanji_meta.deep_view(),
            terms: self.terms.deep_view(),
            term_meta: self.term_meta.deep_view(),
            tag_meta: self.tag_meta.deep_view(),
        }
    }
}

} // verus!
