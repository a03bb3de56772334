//! Reading the status page: from its markup to the lines and records that it
//! reports.

use vstd::prelude::*;
use scraper::{ElementRef, Html, Selector};
use crate::markup::{
    attribute, attribute_of, compile_selector, compiled, descendant_matches, document_matches,
    parse_document, parsed, select_in_document, select_in_element, text_nodes, texts_of,
    MARKUP_LIMIT,
};
use crate::record::{
    classify, elevator_from, elevator_placeholder, elevator_record, line_entry, line_from,
    published_elevators, published_lines, transportation_of, with_placeholder_elevator,
    with_placeholder_line, ElevatorStatus, ElevatorView, Transportation, ELEVATOR, NO_DISRUPTIONS,
    SUBWAY,
};
use crate::text::join_all;

verus! {

/// Why a scrape cycle gave no result.
#[derive(Clone, Copy, Debug, PartialEq, Eq, Structural)]
pub enum ScrapeError {
    /// The page could not be fetched.
    Network,
    /// The page cannot be read: a selector that the extraction relies on is
    /// malformed, or the markup is longer than the parser takes.
    Extraction,
}

/// Selects the rows that carry traffic information.
pub const ROW_CSS: &'static str = "tr.traffic-information-infos";

/// Selects the station name inside a row.
pub const STATION_CSS: &'static str = "td.cell-line span.fw-bold";

/// Selects the event inside a row.
pub const EVENT_CSS: &'static str = "td.cell-event span.flag";

/// Selects the period inside a row.
pub const PERIOD_CSS: &'static str = "td.cell-period";

/// Selects the location inside a row.
pub const LOCATION_CSS: &'static str = "td.cell-location";

/// The attribute that names a row's means of transport.
pub const TRANSPORTATION_ATTRIBUTE: &'static str = "data-transportation";

/// The attribute that holds a row's identifier.
pub const ID_ATTRIBUTE: &'static str = "id";

/// What stands before a row's identifier in the selector of its free text.
pub const INFO_CSS_PREFIX: &'static str = "#";

/// What stands after a row's identifier in the selector of its free text.
pub const INFO_CSS_SUFFIX: &'static str = " p:last-child";

/// Selects the free text on the outage whose row has the identifier `id`: the
/// last paragraph of its parent, below the element with that identifier,
/// wherever in the page it stands.
pub open spec fn info_css(id: Seq<char>) -> Seq<char> {
    INFO_CSS_PREFIX@ + id + INFO_CSS_SUFFIX@
}

/// Compiles the selector group `css`. Fails, with `Extraction`, if and only if
/// the text is no selector group.
pub fn selector_from(css: &str) -> (r: Result<Selector, ScrapeError>)
    ensures
        match r {
            Ok(selector) => compiled(css@) == Some(selector),
            Err(error) => compiled(css@) is None && error == ScrapeError::Extraction,
        },
{
    match compile_selector(css) {
        Ok(selector) => Ok(selector),
        Err(_) => Err(ScrapeError::Extraction),
    }
}

/// Whether the five fixed selectors are well-formed.
pub open spec fn fixed_selectors_compile() -> bool {
    &&& compiled(ROW_CSS@) is Some
    &&& compiled(STATION_CSS@) is Some
    &&& compiled(EVENT_CSS@) is Some
    &&& compiled(PERIOD_CSS@) is Some
    &&& compiled(LOCATION_CSS@) is Some
}

/// The five fixed selectors, compiled once.
pub struct Selectors {
    row: Selector,
    station: Selector,
    event: Selector,
    period: Selector,
    location: Selector,
}

impl Selectors {
    #[verifier::type_invariant]
    spec fn well_formed(self) -> bool {
        &&& compiled(ROW_CSS@) == Some(self.row)
        &&& compiled(STATION_CSS@) == Some(self.station)
        &&& compiled(EVENT_CSS@) == Some(self.event)
        &&& compiled(PERIOD_CSS@) == Some(self.period)
        &&& compiled(LOCATION_CSS@) == Some(self.location)
    }

    /// Compiles the five fixed selectors. Fails, with `Extraction`, if and only
    /// if one of them is malformed.
    pub fn compile() -> (r: Result<Selectors, ScrapeError>)
        ensures
            r is Ok <==> fixed_selectors_compile(),
            r matches Err(error) ==> error == ScrapeError::Extraction,
    {
        let row = match selector_from(ROW_CSS) {
            Ok(selector) => selector,
            Err(error) => { return Err(error); },
        };
        let station = match selector_from(STATION_CSS) {
            Ok(selector) => selector,
            Err(error) => { return Err(error); },
        };
        let event = match selector_from(EVENT_CSS) {
            Ok(selector) => selector,
            Err(error) => { return Err(error); },
        };
        let period = match selector_from(PERIOD_CSS) {
            Ok(selector) => selector,
            Err(error) => { return Err(error); },
        };
        let location = match selector_from(LOCATION_CSS) {
            Ok(selector) => selector,
            Err(error) => { return Err(error); },
        };
        Ok(Selectors { row, station, event, period, location })
    }
}

/// The first text node of the first of the elements `found`; empty where
/// nothing was found or the first element holds no text.
pub open spec fn first_text(found: Seq<ElementRef<'static>>) -> Seq<char> {
    if found.len() > 0 {
        first_or_empty(text_nodes(found[0]))
    } else {
        Seq::empty()
    }
}

/// All the text of the first of the elements `found`; empty where nothing was
/// found.
pub open spec fn whole_text(found: Seq<ElementRef<'static>>) -> Seq<char> {
    if found.len() > 0 {
        text_nodes(found[0]).flatten()
    } else {
        Seq::empty()
    }
}

/// The first text of the first element below `row` that the fixed selector
/// `css` matches.
pub open spec fn cell_text(row: ElementRef, css: Seq<char>) -> Seq<char> {
    first_text(descendant_matches(row, compiled(css)->0))
}

/// All the text of the first element below `row` that the fixed selector `css`
/// matches.
pub open spec fn whole_cell_text(row: ElementRef, css: Seq<char>) -> Seq<char> {
    whole_text(descendant_matches(row, compiled(css)->0))
}

/// The value of the attribute `name` of `element`; empty where it has none.
pub open spec fn attribute_or_empty(element: ElementRef, name: Seq<char>) -> Seq<char> {
    value_or_empty(attribute(element, name))
}

/// The free text on the outage that `row` reports: it is looked up in the
/// whole of `document` by the row's identifier. It is empty where the lookup
/// finds nothing, and where the identifier gives no well-formed selector.
pub open spec fn info_text(row: ElementRef, document: Html) -> Seq<char> {
    match compiled(info_css(attribute_or_empty(row, ID_ATTRIBUTE@))) {
        Some(selector) => first_text(document_matches(document, selector)),
        None => Seq::empty(),
    }
}

/// The record of the outage that `row` of `document` reports.
pub open spec fn elevator_in(row: ElementRef, document: Html) -> ElevatorView {
    elevator_from(
        cell_text(row, STATION_CSS@),
        cell_text(row, EVENT_CSS@),
        whole_cell_text(row, PERIOD_CSS@),
        cell_text(row, LOCATION_CSS@),
        info_text(row, document),
    )
}

/// The line entry for the disruption that `row` reports.
pub open spec fn line_in(row: ElementRef) -> Seq<char> {
    line_from(cell_text(row, EVENT_CSS@), cell_text(row, LOCATION_CSS@))
}

/// The means of transport that `row` reports on.
pub open spec fn row_transportation(row: ElementRef) -> Transportation {
    transportation_of(attribute_or_empty(row, TRANSPORTATION_ATTRIBUTE@))
}

/// The line entries that `rows` give: one for each row on the suspension
/// railway, in the order of the rows.
pub open spec fn lines_in(rows: Seq<ElementRef<'static>>) -> Seq<Seq<char>> {
    rows.filter(|row: ElementRef<'static>| row_transportation(row) == Transportation::Subway)
        .map_values(|row: ElementRef<'static>| line_in(row))
}

/// The records that `rows` of `document` give: one for each row on an
/// elevator, in the order of the rows.
pub open spec fn elevators_in(rows: Seq<ElementRef<'static>>, document: Html) -> Seq<
    ElevatorView,
> {
    rows.filter(|row: ElementRef<'static>| row_transportation(row) == Transportation::Elevator)
        .map_values(|row: ElementRef<'static>| elevator_in(row, document))
}

/// The traffic-information rows of the page `markup`.
pub open spec fn page_rows(markup: Seq<char>) -> Seq<ElementRef<'static>> {
    document_matches(parsed(markup), compiled(ROW_CSS@)->0)
}

/// The lines that a scrape of the page `markup` publishes.
pub open spec fn scraped_lines(markup: Seq<char>) -> Seq<Seq<char>> {
    published_lines(lines_in(page_rows(markup)))
}

/// The records that a scrape of the page `markup` publishes.
pub open spec fn scraped_elevators(markup: Seq<char>) -> Seq<ElevatorView> {
    published_elevators(elevators_in(page_rows(markup), parsed(markup)))
}

/// The first of `texts`, or the empty text where there is none.
pub open spec fn first_or_empty(texts: Seq<Seq<char>>) -> Seq<char> {
    if texts.len() > 0 {
        texts[0]
    } else {
        Seq::empty()
    }
}

/// The value `value`, or the empty text where there is none.
pub open spec fn value_or_empty(value: Option<Seq<char>>) -> Seq<char> {
    match value {
        Some(text) => text,
        None => Seq::empty(),
    }
}

/// Picks the first of the texts of an element: every lookup reads the first
/// text only, and a missing one is the empty text.
pub fn first_text_or_empty<'a>(texts: &Vec<&'a str>) -> (r: &'a str)
    ensures
        r@ == first_or_empty(texts.deep_view()),
{
    proof {
        reveal_strlit("");
    }
    if texts.len() == 0 {
        return "";
    }
    assert(texts.deep_view()[0] == texts@[0]@);
    texts[0]
}

/// Reads the value of an attribute: a missing one is the empty text.
pub fn attribute_value_or_empty<'a>(value: Option<&'a str>) -> (r: &'a str)
    ensures
        r@ == value_or_empty(value.deep_view()),
{
    proof {
        reveal_strlit("");
    }
    match value {
        Some(text) => text,
        None => "",
    }
}

/// Writes the selector of the free text on the outage whose row has the
/// identifier `id`.
pub fn info_selector_text(id: &str) -> (r: String)
    ensures
        r@ == info_css(id@),
{
    let mut css = String::from_str(INFO_CSS_PREFIX);
    css.append(id);
    css.append(INFO_CSS_SUFFIX);
    css
}

/// The first text node of the first of the elements `found`.
fn first_text_of<'a>(found: &Vec<ElementRef<'a>>) -> (r: &'a str)
    ensures
        r@ == first_text(found@),
{
    if found.len() == 0 {
        let none: Vec<&'a str> = Vec::new();
        assert(none.deep_view() =~= Seq::<Seq<char>>::empty());
        return first_text_or_empty(&none);
    }
    let texts = texts_of(&found[0]);
    first_text_or_empty(&texts)
}

/// All the text of the first of the elements `found`.
fn whole_text_of(found: &Vec<ElementRef>) -> (r: String)
    ensures
        r@ == whole_text(found@),
{
    if found.len() == 0 {
        return String::new();
    }
    let texts = texts_of(&found[0]);
    join_all(&texts)
}

/// The value of the attribute `name` of `element`, or the empty text.
fn attribute_or_default<'a>(element: &ElementRef<'a>, name: &str) -> (r: &'a str)
    ensures
        r@ == attribute_or_empty(*element, name@),
{
    attribute_value_or_empty(attribute_of(element, name))
}

/// Looks up the free text on the outage that `row` reports.
fn info_of(row: &ElementRef, document: &Html) -> (r: String)
    ensures
        r@ == info_text(*row, *document),
{
    let id = attribute_or_default(row, ID_ATTRIBUTE);
    let css = info_selector_text(id);
    match selector_from(css.as_str()) {
        Ok(selector) => {
            let found = select_in_document(document, &selector);
            first_text_of(&found).to_owned()
        },
        Err(_) => String::new(),
    }
}

/// Reads the record of an elevator outage from its row. The free text is
/// looked up in the whole document, by the row's identifier.
pub fn parse_elevator_status(row: &ElementRef, document: &Html, selectors: &Selectors) -> (r:
    ElevatorStatus)
    ensures
        r@ == elevator_in(*row, *document),
{
    proof {
        use_type_invariant(selectors);
    }
    let station = first_text_of(&select_in_element(row, &selectors.station));
    let event = first_text_of(&select_in_element(row, &selectors.event));
    let period = whole_text_of(&select_in_element(row, &selectors.period));
    let location = first_text_of(&select_in_element(row, &selectors.location));
    let info = info_of(row, document);
    elevator_record(station, event, period.as_str(), location, info.as_str())
}

/// Reads the line entry for a disruption of the suspension railway from its
/// row.
pub fn parse_schwebebahn_status(row: &ElementRef, selectors: &Selectors) -> (r: String)
    ensures
        r@ == line_in(*row),
{
    proof {
        use_type_invariant(selectors);
    }
    let event = first_text_of(&select_in_element(row, &selectors.event));
    let location = first_text_of(&select_in_element(row, &selectors.location));
    line_entry(event, location)
}

/// A row that is added at the end adds its line entry at the end if it
/// reports on the suspension railway, and nothing otherwise.
pub proof fn lemma_lines_in_push(rows: Seq<ElementRef<'static>>, row: ElementRef<'static>)
    ensures
        lines_in(rows.push(row)) == if row_transportation(row) == Transportation::Subway {
            lines_in(rows).push(line_in(row))
        } else {
            lines_in(rows)
        },
{
    let wanted = |row: ElementRef<'static>| row_transportation(row) == Transportation::Subway;
    let entry = |row: ElementRef<'static>| line_in(row);
    rows.lemma_filter_push(row, wanted);
    if wanted(row) {
        assert(rows.filter(wanted).push(row).map_values(entry) =~= rows.filter(wanted).map_values(
            entry,
        ).push(line_in(row)));
    }
}

/// A row that is added at the end adds its record at the end if it reports on
/// an elevator, and nothing otherwise.
pub proof fn lemma_elevators_in_push(
    rows: Seq<ElementRef<'static>>,
    row: ElementRef<'static>,
    document: Html,
)
    ensures
        elevators_in(rows.push(row), document) == if row_transportation(row)
            == Transportation::Elevator {
            elevators_in(rows, document).push(elevator_in(row, document))
        } else {
            elevators_in(rows, document)
        },
{
    let wanted = |row: ElementRef<'static>| row_transportation(row) == Transportation::Elevator;
    let record = |row: ElementRef<'static>| elevator_in(row, document);
    rows.lemma_filter_push(row, wanted);
    if wanted(row) {
        assert(rows.filter(wanted).push(row).map_values(record) =~= rows.filter(
            wanted,
        ).map_values(record).push(elevator_in(row, document)));
    }
}

/// Reads the page `markup`, which is no longer than the parser takes.
fn read_page(markup: &str, selectors: &Selectors) -> (r: (Vec<String>, Vec<ElevatorStatus>))
    requires
        markup@.len() <= MARKUP_LIMIT,
    ensures
        r.0.deep_view() == scraped_lines(markup@),
        r.1.deep_view() == scraped_elevators(markup@),
        r.0@.len() > 0,
        r.1@.len() > 0,
{
    proof {
        use_type_invariant(selectors);
    }
    let document = parse_document(markup);
    let rows = select_in_document(&document, &selectors.row);
    let mut lines: Vec<String> = Vec::new();
    let mut elevators: Vec<ElevatorStatus> = Vec::new();
    let n = rows.len();
    let mut i: usize = 0;
    proof {
        reveal(Seq::filter);
        assert(rows@.take(0) =~= Seq::empty());
        assert(lines.deep_view() =~= lines_in(rows@.take(0)));
        assert(elevators.deep_view() =~= elevators_in(rows@.take(0), document));
    }
    while i < n
        invariant
            i <= n == rows@.len(),
            lines.deep_view() == lines_in(rows@.take(i as int)),
            elevators.deep_view() == elevators_in(rows@.take(i as int), document),
        decreases n - i,
    {
        let row = &rows[i];
        let value = attribute_or_default(row, TRANSPORTATION_ATTRIBUTE);
        proof {
            assert(rows@.take(i as int).push(rows@[i as int]) =~= rows@.take(i + 1));
            lemma_lines_in_push(rows@.take(i as int), rows@[i as int]);
            lemma_elevators_in_push(rows@.take(i as int), rows@[i as int], document);
        }
        let ghost lines_before = lines.deep_view();
        let ghost elevators_before = elevators.deep_view();
        match classify(value) {
            Transportation::Elevator => {
                let status = parse_elevator_status(row, &document, selectors);
                elevators.push(status);
                assert(elevators.deep_view() =~= elevators_before.push(status@));
            },
            Transportation::Subway => {
                let entry = parse_schwebebahn_status(row, selectors);
                lines.push(entry);
                assert(lines.deep_view() =~= lines_before.push(entry@));
            },
            Transportation::Unknown => {},
        }
        i += 1;
    }
    assert(rows@.take(n as int) =~= rows@);
    let lines = with_placeholder_line(lines);
    let elevators = with_placeholder_elevator(elevators);
    assert(lines@.len() == lines.deep_view().len());
    assert(elevators@.len() == elevators.deep_view().len());
    (lines, elevators)
}

/// What a scrape cycle hands over at its end: the lines and the records that
/// it read, or why it read none.
pub type OutcomeView = Result<(Seq<Seq<char>>, Seq<ElevatorView>), ScrapeError>;

/// What a scrape cycle handed over, as plain values.
pub open spec fn outcome_view(
    outcome: Result<(Vec<String>, Vec<ElevatorStatus>), ScrapeError>,
) -> OutcomeView {
    match outcome {
        Ok(lists) => Ok((lists.0.deep_view(), lists.1.deep_view())),
        Err(error) => Err(error),
    }
}

/// How the fetch of the page ended, as plain values.
pub open spec fn fetched_view(fetched: Result<String, ScrapeError>) -> Result<
    Seq<char>,
    ScrapeError,
> {
    match fetched {
        Ok(markup) => Ok(markup@),
        Err(error) => Err(error),
    }
}

/// What a scrape cycle hands over when the fetch of the page ended with
/// `fetched`: what the page publishes, or the error of the fetch, or
/// `Extraction` where the markup is longer than the parser takes.
pub open spec fn scrape_outcome(fetched: Result<Seq<char>, ScrapeError>) -> OutcomeView {
    match fetched {
        Ok(markup) => if markup.len() <= MARKUP_LIMIT {
            Ok((scraped_lines(markup), scraped_elevators(markup)))
        } else {
            Err(ScrapeError::Extraction)
        },
        Err(error) => Err(error),
    }
}

/// Reads the page `markup`: every traffic-information row gives a line entry
/// or an elevator record, by the means of transport that it names, and a row
/// that names neither is passed over. A list that stays empty gets its
/// placeholder. Fails, with `Extraction`, if and only if the markup is longer
/// than the parser takes.
pub fn scrape_status(markup: &str, selectors: &Selectors) -> (r: Result<
    (Vec<String>, Vec<ElevatorStatus>),
    ScrapeError,
>)
    ensures
        outcome_view(r) == scrape_outcome(Ok(markup@)),
        r is Ok <==> markup@.len() <= MARKUP_LIMIT,
        r matches Ok(lists) ==> lists.0@.len() > 0 && lists.1@.len() > 0,
{
    if markup.unicode_len() <= MARKUP_LIMIT {
        Ok(read_page(markup, selectors))
    } else {
        Err(ScrapeError::Extraction)
    }
}

/// Carries a scrape cycle on from the fetch of the page: markup that was
/// fetched is read, and a fetch that failed makes the cycle fail with the
/// same error.
pub fn scrape_fetched(fetched: Result<String, ScrapeError>, selectors: &Selectors) -> (r: Result<
    (Vec<String>, Vec<ElevatorStatus>),
    ScrapeError,
>)
    ensures
        outcome_view(r) == scrape_outcome(fetched_view(fetched)),
        r matches Ok(lists) ==> lists.0@.len() > 0 && lists.1@.len() > 0,
{
    match fetched {
        Ok(markup) => scrape_status(markup.as_str(), selectors),
        Err(error) => Err(error),
    }
}

/// A row whose discriminator names neither an elevator nor the suspension
/// railway gives no line entry and no record: without it both lists are what
/// they are with it.
pub proof fn lemma_unknown_row_contributes_nothing(
    rows: Seq<ElementRef<'static>>,
    i: int,
    document: Html,
)
    requires
        0 <= i < rows.len(),
        attribute_or_empty(rows[i], TRANSPORTATION_ATTRIBUTE@) != ELEVATOR@,
        attribute_or_empty(rows[i], TRANSPORTATION_ATTRIBUTE@) != SUBWAY@,
    ensures
        lines_in(rows.remove(i)) == lines_in(rows),
        elevators_in(rows.remove(i), document) == elevators_in(rows, document),
{
    let before = rows.subrange(0, i);
    let after = rows.subrange(i + 1, rows.len() as int);
    let one = seq![rows[i]];
    assert(rows =~= before + one + after);
    assert(rows.remove(i) =~= before + after);
    let railway = |row: ElementRef<'static>| row_transportation(row) == Transportation::Subway;
    let elevator = |row: ElementRef<'static>| row_transportation(row) == Transportation::Elevator;
    assert(one.filter(railway) =~= Seq::empty() && one.filter(elevator) =~= Seq::empty()) by {
        assert(one =~= Seq::empty().push(rows[i]));
        Seq::empty().lemma_filter_push(rows[i], railway);
        Seq::empty().lemma_filter_push(rows[i], elevator);
        reveal(Seq::filter);
    }
    Seq::filter_distributes_over_add(before, one, railway);
    Seq::filter_distributes_over_add(before + one, after, railway);
    Seq::filter_distributes_over_add(before, after, railway);
    assert(rows.filter(railway) =~= rows.remove(i).filter(railway));
    Seq::filter_distributes_over_add(before, one, elevator);
    Seq::filter_distributes_over_add(before + one, after, elevator);
    Seq::filter_distributes_over_add(before, after, elevator);
    assert(rows.filter(elevator) =~= rows.remove(i).filter(elevator));
}

/// Where none of `rows` is wanted, filtering them leaves nothing.
proof fn lemma_filter_of_none(
    rows: Seq<ElementRef<'static>>,
    wanted: spec_fn(ElementRef<'static>) -> bool,
)
    requires
        forall|i: int| 0 <= i < rows.len() ==> !wanted(#[trigger] rows[i]),
    ensures
        rows.filter(wanted) == Seq::<ElementRef<'static>>::empty(),
    decreases rows.len(),
{
    reveal(Seq::filter);
    if rows.len() > 0 {
        lemma_filter_of_none(rows.drop_last(), wanted);
    }
}

/// Rows of which none reports on the suspension railway publish exactly the
/// one placeholder line, whatever else they report on; and rows of which none
/// reports on an elevator publish exactly the one placeholder record, which
/// has nothing set but its `info`.
pub proof fn lemma_placeholders_where_nothing_is_reported(
    rows: Seq<ElementRef<'static>>,
    document: Html,
)
    ensures
        (forall|i: int|
            0 <= i < rows.len() ==> row_transportation(#[trigger] rows[i])
                != Transportation::Subway) ==> published_lines(lines_in(rows)) == seq![
            NO_DISRUPTIONS@,
        ],
        (forall|i: int|
            0 <= i < rows.len() ==> row_transportation(#[trigger] rows[i])
                != Transportation::Elevator) ==> published_elevators(elevators_in(rows, document))
            == seq![elevator_placeholder()],
{
    let railway = |row: ElementRef<'static>| row_transportation(row) == Transportation::Subway;
    let elevator = |row: ElementRef<'static>| row_transportation(row) == Transportation::Elevator;
    if forall|i: int|
        0 <= i < rows.len() ==> row_transportation(#[trigger] rows[i]) != Transportation::Subway {
        lemma_filter_of_none(rows, railway);
    }
    if forall|i: int|
        0 <= i < rows.len() ==> row_transportation(#[trigger] rows[i])
            != Transportation::Elevator {
        lemma_filter_of_none(rows, elevator);
    }
}

/// A page whose rows are one on an elevator and one on the suspension
/// railway publishes the record of the first and the line entry of the
/// second, and no placeholder.
pub proof fn lemma_one_row_of_each(
    elevator_row: ElementRef<'static>,
    railway_row: ElementRef<'static>,
    document: Html,
)
    requires
        row_transportation(elevator_row) == Transportation::Elevator,
        row_transportation(railway_row) == Transportation::Subway,
    ensures
        published_elevators(elevators_in(seq![elevator_row, railway_row], document)) == seq![
            elevator_in(elevator_row, document),
        ],
        published_lines(lines_in(seq![elevator_row, railway_row])) == seq![line_in(railway_row)],
{
    let none = Seq::<ElementRef<'static>>::empty();
    let one = none.push(elevator_row);
    assert(one.push(railway_row) =~= seq![elevator_row, railway_row]);
    assert(lines_in(none) =~= Seq::<Seq<char>>::empty() && elevators_in(none, document)
        =~= Seq::<ElevatorView>::empty()) by {
        reveal(Seq::filter);
    }
    lemma_lines_in_push(none, elevator_row);
    lemma_lines_in_push(one, railway_row);
    lemma_elevators_in_push(none, elevator_row, document);
    lemma_elevators_in_push(one, railway_row, document);
    assert(lines_in(one.push(railway_row)) =~= seq![line_in(railway_row)]);
    assert(elevators_in(one.push(railway_row), document) =~= seq![
        elevator_in(elevator_row, document),
    ]);
}

/// A scrape succeeds on exactly the markup that is no longer than the parser
/// takes, and what it then hands over is fixed by the markup alone: the lines
/// and the records of its traffic-information rows, each list with its
/// placeholder where it would be empty.
pub proof fn lemma_scrape_outcome(markup: Seq<char>)
    ensures
        scrape_outcome(Ok(markup)) is Ok <==> markup.len() <= MARKUP_LIMIT,
        scrape_outcome(Ok(markup)) matches Err(error) ==> error == ScrapeError::Extraction,
        scrape_outcome(Ok(markup)) matches Ok(lists) ==> {
            &&& lists.0 == published_lines(lines_in(page_rows(markup)))
            &&& lists.1 == published_elevators(elevators_in(page_rows(markup), parsed(markup)))
            &&& lists.0.len() > 0
            &&& lists.1.len() > 0
        },
{
}

/// What a scrape publishes is a function of the markup alone, and neither
/// list is ever empty: the placeholder for the lines is a single line, the
/// placeholder for the elevators a single record with nothing set but its
/// `info`.
pub proof fn lemma_scrape_never_publishes_an_empty_list(markup: Seq<char>)
    ensures
        scraped_lines(markup).len() > 0,
        scraped_elevators(markup).len() > 0,
        lines_in(page_rows(markup)).len() == 0 ==> scraped_lines(markup) == seq![NO_DISRUPTIONS@],
        elevators_in(page_rows(markup), parsed(markup)).len() == 0 ==> scraped_elevators(markup)
            == seq![elevator_placeholder()],
        lines_in(page_rows(markup)).len() > 0 ==> scraped_lines(markup) == lines_in(
            page_rows(markup),
        ),
        elevators_in(page_rows(markup), parsed(markup)).len() > 0 ==> scraped_elevators(markup)
            == elevators_in(page_rows(markup), parsed(markup)),
{
}

} // verus!
