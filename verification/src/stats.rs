//! Win/loss extraction: scanning a fetched profile document for the
//! structural markers the profile page renders its counters with, and
//! parsing the adjacent numeric text.
//!
//! The markers are framework-generated CSS class names, an unversioned and
//! unstable external contract: when they are absent the extraction fails
//! loudly instead of degrading to zero counts.

use vstd::prelude::*;

verus! {

use crate::digits::{all_digits, digits_val, parse_decimal};

/// A win/loss record extracted from one profile document.
#[derive(Debug, Clone, Copy, PartialEq, Eq, Structural)]
pub struct WinLossData {
    wins: usize,
    losses: usize,
}

impl WinLossData {
    /// The number of wins.
    pub closed spec fn spec_wins(&self) -> int {
        self.wins as int
    }

    /// The number of losses.
    pub closed spec fn spec_losses(&self) -> int {
        self.losses as int
    }

    /// Builds a record from its two counters.
    pub fn new(wins: usize, losses: usize) -> (r: WinLossData)
        ensures
            r.spec_wins() == wins as int,
            r.spec_losses() == losses as int,
    {
        WinLossData { wins, losses }
    }

    /// The number of wins.
    pub fn wins(&self) -> (r: usize)
        ensures
            r as int == self.spec_wins(),
    {
        self.wins
    }

    /// The number of losses.
    pub fn losses(&self) -> (r: usize)
        ensures
            r as int == self.spec_losses(),
    {
        self.losses
    }
}

/// Why no win/loss record could be extracted: the expected markers are
/// absent from the document (or the text beside them is not a count), so
/// the page's markup no longer matches what the extractor expects.
#[derive(Debug, Clone, Copy, PartialEq, Eq, Structural)]
pub enum ExtractionError {
    MarkersNotFound,
}

/// What selecting the win/loss markers yields for a given document: the
/// inner text of each element bearing the marker classes, in document
/// order.
pub uninterp spec fn marker_texts(document: Seq<char>) -> Seq<Seq<char>>;

/// Relies on `scraper::Html::parse_document`, `scraper::Selector::parse`
/// and `scraper::Html::select`: for the fixed marker selector
/// `.MuiTypography-root.MuiTypography-body1.css-1i7pcxu`, the matched
/// elements and their inner text depend on the document text alone.
#[verifier::external_body]
fn select_marker_texts(document: &str) -> (r: Vec<String>)
    ensures
        r.deep_view() == marker_texts(document@),
{
    let selector = match scraper::Selector::parse(".MuiTypography-root.MuiTypography-body1.css-1i7pcxu") {
        Ok(s) => s,
        Err(_) => return Vec::new(),
    };
    let html = scraper::Html::parse_document(document);
    html.select(&selector).map(|element| element.inner_html()).collect()
}

/// True when a marker text is a usable counter: a non-empty run of digits
/// whose value fits in `usize`.
pub open spec fn is_counter_text(s: Seq<char>) -> bool {
    s.len() > 0 && all_digits(s) && digits_val(s) <= usize::MAX
}

/// What extraction yields for the marker texts of a document: the values
/// of the first two counters, wins first.
pub open spec fn extract_spec(texts: Seq<Seq<char>>) -> Result<(int, int), ExtractionError> {
    if texts.len() >= 2 && is_counter_text(texts[0]) && is_counter_text(texts[1]) {
        Ok((digits_val(texts[0]), digits_val(texts[1])))
    } else {
        Err(ExtractionError::MarkersNotFound)
    }
}

/// Reads the win/loss record off the marker texts of a document: succeeds
/// exactly when at least two markers are present and the first two hold
/// numeric text, wins then losses.
pub fn win_loss_from_texts(texts: &Vec<String>) -> (r: Result<WinLossData, ExtractionError>)
    ensures
        match r {
            Ok(record) => extract_spec(texts.deep_view()) == Ok::<_, ExtractionError>(
                (record.spec_wins(), record.spec_losses()),
            ),
            Err(e) => extract_spec(texts.deep_view()) == Err::<(int, int), _>(e),
        },
{
    if texts.len() < 2 {
        return Err(ExtractionError::MarkersNotFound);
    }
    let wins = match parse_decimal(texts[0].as_str()) {
        Some(v) => v,
        None => {
            return Err(ExtractionError::MarkersNotFound);
        },
    };
    let losses = match parse_decimal(texts[1].as_str()) {
        Some(v) => v,
        None => {
            return Err(ExtractionError::MarkersNotFound);
        },
    };
    Ok(WinLossData { wins, losses })
}

/// Extracts the win/loss record from a profile document.
///
/// Succeeds exactly when the marker elements are present and the first two
/// hold numeric text: wins then losses. A zero count is returned only when
/// a marker explicitly shows zero; absent markers are an error.
pub fn get_win_loss_data(page_data: String) -> (r: Result<WinLossData, ExtractionError>)
    ensures
        match r {
            Ok(record) => extract_spec(marker_texts(page_data@)) == Ok::<_, ExtractionError>(
                (record.spec_wins(), record.spec_losses()),
            ),
            Err(e) => extract_spec(marker_texts(page_data@)) == Err::<(int, int), _>(e),
        },
{
    let texts = select_marker_texts(page_data.as_str());
    win_loss_from_texts(&texts)
}

} // verus!
