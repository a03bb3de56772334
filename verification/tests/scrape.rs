use scraper::{Html, Selector};
use transit_status::clock::Timestamp;
use transit_status::record::ElevatorStatus;
use transit_status::markup::MARKUP_LIMIT;
use transit_status::scrape::{
    attribute_value_or_empty, first_text_or_empty, info_selector_text, parse_elevator_status,
    parse_schwebebahn_status, scrape_fetched, scrape_status, selector_from, ScrapeError,
    Selectors, EVENT_CSS, ID_ATTRIBUTE, INFO_CSS_PREFIX, INFO_CSS_SUFFIX, LOCATION_CSS,
    PERIOD_CSS, ROW_CSS, STATION_CSS, TRANSPORTATION_ATTRIBUTE,
};
use transit_status::state::{apply_scrape_at, status_at, AppState};

fn selectors() -> Selectors {
    match Selectors::compile() {
        Ok(selectors) => selectors,
        Err(error) => panic!("the fixed selectors are well-formed: {:?}", error),
    }
}

fn scrape(markup: &str) -> (Vec<String>, Vec<ElevatorStatus>) {
    match scrape_status(markup, &selectors()) {
        Ok(lists) => lists,
        Err(error) => panic!("markup within the limit is read: {:?}", error),
    }
}

fn elevator(station: &str, event: &str, start: &str, end: &str, location: &str, info: &str) -> ElevatorStatus {
    ElevatorStatus {
        station: station.to_string(),
        event: event.to_string(),
        start_time: start.to_string(),
        end_time: end.to_string(),
        location: location.to_string(),
        info: info.to_string(),
    }
}

fn placeholder() -> ElevatorStatus {
    elevator("", "", "", "", "", "Alle Aufzüge sind in Betrieb")
}

fn page(rows: &str) -> String {
    format!(
        "<!DOCTYPE html><html><head><title>Verkehrsinformationen</title></head><body>\
         <h1>Verkehrsinformationen</h1><table><tbody>{}</tbody></table></body></html>",
        rows
    )
}

const ELEVATOR_ROW: &str = r#"
<tr id="info-17" class="traffic-information-infos" data-transportation="elevator">
  <td class="cell-line"><span class="badge">A</span> <span class="fw-bold"> Hauptbahnhof </span></td>
  <td class="cell-event"><span class="flag">Ausfall</span></td>
  <td class="cell-period">
     <span>09:00</span> bis <span>17:00</span>
  </td>
  <td class="cell-location"> Aufzug 2 </td>
  <td class="cell-details"><p>Stand: heute</p><p> Ersatzverkehr eingerichtet </p></td>
</tr>"#;

const SUBWAY_ROW: &str = r#"
<tr id="info-18" class="traffic-information-infos" data-transportation="subway">
  <td class="cell-line"><span class="fw-bold">Schwebebahn</span></td>
  <td class="cell-event"><span class="flag"> Verspätung</span></td>
  <td class="cell-period">ab sofort</td>
  <td class="cell-location">Vohwinkel </td>
</tr>"#;

const BUS_ROW: &str = r#"
<tr id="info-19" class="traffic-information-infos" data-transportation="bus">
  <td class="cell-line"><span class="fw-bold">Linie 611</span></td>
  <td class="cell-event"><span class="flag">Umleitung</span></td>
  <td class="cell-period">01.02. bis 03.04.</td>
  <td class="cell-location">Elberfeld</td>
  <td class="cell-details"><p>Baustelle</p></td>
</tr>"#;

const UNMARKED_ROW: &str = r#"
<tr id="info-20" class="traffic-information-infos">
  <td class="cell-event"><span class="flag">Hinweis</span></td>
  <td class="cell-location">Barmen</td>
</tr>"#;

const OTHER_TABLE_ROW: &str = r#"
<tr id="info-21" class="timetable" data-transportation="subway">
  <td class="cell-event"><span class="flag">Ausfall</span></td>
  <td class="cell-location">Oberbarmen</td>
</tr>"#;

#[test]
fn fixed_selectors_compile() {
    assert!(Selectors::compile().is_ok());
}

#[test]
fn one_elevator_row_and_one_subway_row() {
    let markup = page(&format!("{}{}", ELEVATOR_ROW, SUBWAY_ROW));
    let (lines, elevators) = scrape(&markup);
    assert_eq!(
        elevators,
        vec![elevator("Hauptbahnhof", "Ausfall", "09:00", "17:00", "Aufzug 2", "Ersatzverkehr eingerichtet")]
    );
    assert_eq!(lines, vec!["Verspätung: Vohwinkel".to_string()]);
}

#[test]
fn snapshot_of_the_sample_page() {
    let markup = page(&format!("{}{}", ELEVATOR_ROW, SUBWAY_ROW));
    let mut state = AppState::new();
    let now = Timestamp { secs: 1_700_000_000, nanos: 42 };
    apply_scrape_at(&mut state, scrape_status(&markup, &selectors()), now);
    let served = status_at(&mut state, Timestamp { secs: 1_700_000_001, nanos: 0 });
    assert_eq!(
        served.elevators,
        vec![elevator("Hauptbahnhof", "Ausfall", "09:00", "17:00", "Aufzug 2", "Ersatzverkehr eingerichtet")]
    );
    assert_eq!(served.schwebebahn, vec!["Verspätung: Vohwinkel".to_string()]);
    assert_eq!(served.last_updated, Some(now));
}

#[test]
fn rows_of_other_transport_contribute_nothing() {
    let with = page(&format!("{}{}{}{}{}", BUS_ROW, ELEVATOR_ROW, UNMARKED_ROW, SUBWAY_ROW, BUS_ROW));
    let without = page(&format!("{}{}", ELEVATOR_ROW, SUBWAY_ROW));
    assert_eq!(scrape(&with), scrape(&without));
}

#[test]
fn page_with_rows_of_other_transport_only_gets_both_placeholders() {
    let markup = page(&format!("{}{}", BUS_ROW, UNMARKED_ROW));
    let (lines, elevators) = scrape(&markup);
    assert_eq!(lines, vec!["Keine aktuellen Störungen".to_string()]);
    assert_eq!(elevators, vec![placeholder()]);
}

#[test]
fn rows_without_the_marker_are_not_read() {
    let markup = page(OTHER_TABLE_ROW);
    let (lines, elevators) = scrape(&markup);
    assert_eq!(lines, vec!["Keine aktuellen Störungen".to_string()]);
    assert_eq!(elevators, vec![placeholder()]);
}

#[test]
fn empty_page_gets_both_placeholders() {
    for markup in ["", "<html></html>", "not markup at all", "<table><tr><td>x</td></tr></table>"] {
        let (lines, elevators) = scrape(markup);
        assert_eq!(lines, vec!["Keine aktuellen Störungen".to_string()], "markup {:?}", markup);
        assert_eq!(elevators, vec![placeholder()], "markup {:?}", markup);
    }
}

#[test]
fn only_subway_rows_leave_the_elevator_placeholder() {
    let markup = page(SUBWAY_ROW);
    let (lines, elevators) = scrape(&markup);
    assert_eq!(lines, vec!["Verspätung: Vohwinkel".to_string()]);
    assert_eq!(elevators, vec![placeholder()]);
}

#[test]
fn only_elevator_rows_leave_the_line_placeholder() {
    let markup = page(ELEVATOR_ROW);
    let (lines, elevators) = scrape(&markup);
    assert_eq!(lines, vec!["Keine aktuellen Störungen".to_string()]);
    assert_eq!(elevators.len(), 1);
    assert_eq!(elevators[0].station, "Hauptbahnhof");
}

#[test]
fn rows_come_out_in_the_order_of_the_page() {
    let second = r#"
<tr id="b" class="traffic-information-infos" data-transportation="subway">
  <td class="cell-event"><span class="flag">Ausfall</span></td>
  <td class="cell-location">Oberbarmen</td>
</tr>
<tr id="c" class="traffic-information-infos" data-transportation="elevator">
  <td class="cell-line"><span class="fw-bold">Alter Markt</span></td>
  <td class="cell-period">bis auf Weiteres</td>
</tr>"#;
    let markup = page(&format!("{}{}{}", SUBWAY_ROW, ELEVATOR_ROW, second));
    let (lines, elevators) = scrape(&markup);
    assert_eq!(lines, vec!["Verspätung: Vohwinkel".to_string(), "Ausfall: Oberbarmen".to_string()]);
    assert_eq!(
        elevators,
        vec![
            elevator("Hauptbahnhof", "Ausfall", "09:00", "17:00", "Aufzug 2", "Ersatzverkehr eingerichtet"),
            elevator("Alter Markt", "", "", "auf Weiteres", "", ""),
        ]
    );
}

#[test]
fn missing_cells_give_empty_fields() {
    let row = r#"<tr id="x" class="traffic-information-infos" data-transportation="elevator"><td>nichts</td></tr>"#;
    let (_, elevators) = scrape(&page(row));
    assert_eq!(elevators, vec![elevator("", "", "", "", "", "")]);
    let row = r#"<tr class="traffic-information-infos" data-transportation="subway"><td>nichts</td></tr>"#;
    let (lines, _) = scrape(&page(row));
    assert_eq!(lines, vec![": ".to_string()]);
}

#[test]
fn only_the_first_match_of_a_cell_is_read() {
    let row = r#"
<tr class="traffic-information-infos" data-transportation="subway">
  <td class="cell-event"><span class="flag">Ausfall</span><span class="flag">Verspätung</span></td>
  <td class="cell-location">Barmen<b>Mitte</b></td>
  <td class="cell-location">Elberfeld</td>
</tr>"#;
    let (lines, _) = scrape(&page(row));
    assert_eq!(lines, vec!["Ausfall: Barmen".to_string()]);
}

#[test]
fn period_takes_all_the_text_of_its_cell() {
    let row = r#"
<tr id="p" class="traffic-information-infos" data-transportation="elevator">
  <td class="cell-period"><b>Mo</b> 08:00 <i>bis</i> <b>Fr</b> 18:00</td>
</tr>"#;
    let (_, elevators) = scrape(&page(row));
    assert_eq!(elevators, vec![elevator("", "", "Mo 08:00", "Fr 18:00", "", "")]);
}

#[test]
fn info_is_looked_up_in_the_whole_document() {
    let markup = format!(
        "<html><body><div id=\"detail-7\"><h2>Details</h2><p>eins</p><p> Ersatz über Rampe </p></div>\
         <table><tbody><tr id=\"detail-7\" class=\"traffic-information-infos\" data-transportation=\"elevator\">\
         <td class=\"cell-line\"><span class=\"fw-bold\">Zoo</span></td></tr></tbody></table></body></html>"
    );
    let (_, elevators) = scrape(&markup);
    assert_eq!(elevators, vec![elevator("Zoo", "", "", "", "", "Ersatz über Rampe")]);
}

#[test]
fn row_without_identifier_has_no_info() {
    let row = r#"
<tr class="traffic-information-infos" data-transportation="elevator">
  <td class="cell-line"><span class="fw-bold">Zoo</span></td>
  <td class="cell-details"><p>nicht gefunden</p></td>
</tr>"#;
    let (_, elevators) = scrape(&page(row));
    assert_eq!(elevators, vec![elevator("Zoo", "", "", "", "", "")]);
}

#[test]
fn row_whose_identifier_is_no_selector_has_no_info() {
    let row = r#"
<tr id="7 !" class="traffic-information-infos" data-transportation="elevator">
  <td class="cell-line"><span class="fw-bold">Zoo</span></td>
  <td class="cell-details"><p>nicht gefunden</p></td>
</tr>"#;
    let (_, elevators) = scrape(&page(row));
    assert_eq!(elevators, vec![elevator("Zoo", "", "", "", "", "")]);
}

#[test]
fn scraping_the_same_markup_twice_gives_the_same_lists() {
    let markup = page(&format!("{}{}{}", ELEVATOR_ROW, BUS_ROW, SUBWAY_ROW));
    let selectors = selectors();
    let first = scrape_status(&markup, &selectors);
    let second = scrape_status(&markup, &selectors);
    assert!(first.is_ok());
    assert_eq!(first, second);

    let mut state = AppState::new();
    apply_scrape_at(&mut state, first, Timestamp { secs: 100, nanos: 0 });
    let once = state.status.clone();
    apply_scrape_at(&mut state, second, Timestamp { secs: 1000, nanos: 0 });
    assert_eq!(state.status.schwebebahn, once.schwebebahn);
    assert_eq!(state.status.elevators, once.elevators);
    assert_eq!(once.last_updated, Some(Timestamp { secs: 100, nanos: 0 }));
    assert_eq!(state.status.last_updated, Some(Timestamp { secs: 1000, nanos: 0 }));
}

#[test]
fn elevator_status_is_read_from_its_row() {
    let markup = page(&format!("{}{}", SUBWAY_ROW, ELEVATOR_ROW));
    let document = Html::parse_document(&markup);
    let rows = Selector::parse("tr.traffic-information-infos").expect("a selector");
    let row = document.select(&rows).nth(1).expect("the second row");
    assert_eq!(
        parse_elevator_status(&row, &document, &selectors()),
        elevator("Hauptbahnhof", "Ausfall", "09:00", "17:00", "Aufzug 2", "Ersatzverkehr eingerichtet")
    );
}

#[test]
fn line_entry_is_read_from_its_row() {
    let markup = page(&format!("{}{}", SUBWAY_ROW, ELEVATOR_ROW));
    let document = Html::parse_document(&markup);
    let rows = Selector::parse("tr.traffic-information-infos").expect("a selector");
    let mut found = document.select(&rows);
    let first = found.next().expect("the first row");
    let second = found.next().expect("the second row");
    assert_eq!(parse_schwebebahn_status(&first, &selectors()), "Verspätung: Vohwinkel");
    assert_eq!(parse_schwebebahn_status(&second, &selectors()), "Ausfall: Aufzug 2");
}

#[test]
fn errors_are_told_apart() {
    assert_ne!(ScrapeError::Network, ScrapeError::Extraction);
    assert_eq!(format!("{:?}", ScrapeError::Network), "Network");
    assert_eq!(format!("{:?}", ScrapeError::Extraction), "Extraction");
}

#[test]
fn well_formed_selectors_compile() {
    for css in [ROW_CSS, STATION_CSS, EVENT_CSS, PERIOD_CSS, LOCATION_CSS, "#info-17 p:last-child", "a, b > c"] {
        assert!(selector_from(css).is_ok(), "selector {:?}", css);
    }
}

#[test]
fn malformed_selectors_give_an_extraction_error() {
    for css in ["", "# p:last-child", "#7 p:last-child", "<failing selector>", "td..cell", "a >"] {
        assert_eq!(selector_from(css).err(), Some(ScrapeError::Extraction), "selector {:?}", css);
    }
}

#[test]
fn compiled_selector_matches_as_the_text_says() {
    let document = Html::parse_document("<p class=\"a\">x</p><p class=\"b\">y</p><p class=\"a\">z</p>");
    let selector = selector_from("p.a").expect("a selector");
    let texts: Vec<String> = document.select(&selector).map(|p| p.text().collect()).collect();
    assert_eq!(texts, vec!["x".to_string(), "z".to_string()]);
}

#[test]
fn fixed_names_of_the_page() {
    assert_eq!(ROW_CSS, "tr.traffic-information-infos");
    assert_eq!(STATION_CSS, "td.cell-line span.fw-bold");
    assert_eq!(EVENT_CSS, "td.cell-event span.flag");
    assert_eq!(PERIOD_CSS, "td.cell-period");
    assert_eq!(LOCATION_CSS, "td.cell-location");
    assert_eq!(TRANSPORTATION_ATTRIBUTE, "data-transportation");
    assert_eq!(ID_ATTRIBUTE, "id");
}

#[test]
fn fetched_markup_is_scraped() {
    let markup = page(&format!("{}{}", ELEVATOR_ROW, SUBWAY_ROW));
    let selectors = selectors();
    assert_eq!(scrape_fetched(Ok(markup.clone()), &selectors), scrape_status(&markup, &selectors));
    assert_eq!(
        scrape_fetched(Ok(String::new()), &selectors),
        Ok((vec!["Keine aktuellen Störungen".to_string()], vec![placeholder()]))
    );
}

#[test]
fn failed_fetch_fails_the_cycle() {
    assert_eq!(scrape_fetched(Err(ScrapeError::Network), &selectors()), Err(ScrapeError::Network));
    assert_eq!(scrape_fetched(Err(ScrapeError::Extraction), &selectors()), Err(ScrapeError::Extraction));
}

#[test]
fn failed_fetch_leaves_the_published_snapshot() {
    let markup = page(SUBWAY_ROW);
    let selectors = selectors();
    let mut state = AppState::new();
    apply_scrape_at(&mut state, scrape_fetched(Ok(markup), &selectors), Timestamp { secs: 100, nanos: 0 });
    let published = state.status.clone();
    apply_scrape_at(&mut state, scrape_fetched(Err(ScrapeError::Network), &selectors), Timestamp { secs: 200, nanos: 0 });
    assert_eq!(state.status, published);
    assert_eq!(published.last_updated, Some(Timestamp { secs: 100, nanos: 0 }));
}

#[test]
fn first_text_is_the_first_or_empty() {
    assert_eq!(first_text_or_empty(&vec![" Hauptbahnhof ", "Gleis 1"]), " Hauptbahnhof ");
    assert_eq!(first_text_or_empty(&vec!["", "zweiter"]), "");
    assert_eq!(first_text_or_empty(&vec!["ö"]), "ö");
    assert_eq!(first_text_or_empty(&vec![]), "");
}

#[test]
fn missing_attribute_is_the_empty_text() {
    assert_eq!(attribute_value_or_empty(Some("elevator")), "elevator");
    assert_eq!(attribute_value_or_empty(Some("")), "");
    assert_eq!(attribute_value_or_empty(None), "");
}

#[test]
fn info_selector_is_built_from_the_identifier() {
    assert_eq!(info_selector_text("info-17"), "#info-17 p:last-child");
    assert_eq!(info_selector_text(""), "# p:last-child");
    assert_eq!(info_selector_text("a, b"), "#a, b p:last-child");
    assert_eq!(info_selector_text("stör"), "#stör p:last-child");
    assert_eq!(INFO_CSS_PREFIX, "#");
    assert_eq!(INFO_CSS_SUFFIX, " p:last-child");
}

#[test]
fn markup_limit_fits_the_parser() {
    assert_eq!(MARKUP_LIMIT, 0x1000_0000);
    assert!((MARKUP_LIMIT as u64) * 4 <= 1 << 30);
}

#[test]
fn markup_beyond_the_limit_is_not_read() {
    let markup = " ".repeat(MARKUP_LIMIT + 1);
    assert_eq!(scrape_status(&markup, &selectors()), Err(ScrapeError::Extraction));
    assert_eq!(scrape_fetched(Ok(markup), &selectors()), Err(ScrapeError::Extraction));
}

#[test]
fn markup_beyond_the_limit_in_characters_is_not_read() {
    let markup = "€".repeat(MARKUP_LIMIT + 1);
    assert_eq!(scrape_status(&markup, &selectors()), Err(ScrapeError::Extraction));
}

#[test]
fn markup_beyond_the_limit_leaves_the_published_snapshot() {
    let selectors = selectors();
    let mut state = AppState::new();
    let first = Timestamp { secs: 100, nanos: 0 };
    apply_scrape_at(&mut state, scrape_status(&page(SUBWAY_ROW), &selectors), first);
    let published = state.status.clone();
    let markup = "<p>".repeat(MARKUP_LIMIT / 3 + 1);
    apply_scrape_at(
        &mut state,
        scrape_status(&markup, &selectors),
        Timestamp { secs: 200, nanos: 0 },
    );
    assert_eq!(state.status, published);
    assert_eq!(published.last_updated, Some(first));
}

#[test]
fn markup_is_measured_in_characters() {
    let row = SUBWAY_ROW.replace("Vohwinkel", "Vöhwinkel ä ö ü ß €");
    let markup = page(&row);
    assert!(markup.len() > markup.chars().count());
    assert_eq!(
        scrape_fetched(Ok(markup), &selectors()),
        Ok((vec!["Verspätung: Vöhwinkel ä ö ü ß €".to_string()], vec![placeholder()]))
    );
}
