use slp_scout::stats::{ExtractionError, WinLossData, get_win_loss_data, win_loss_from_texts};

#[test]
fn counters_come_from_the_first_two_texts() {
    let texts = vec!["5".to_string(), "3".to_string(), "99".to_string()];
    assert_eq!(win_loss_from_texts(&texts).unwrap(), WinLossData::new(5, 3));
}

#[test]
fn a_single_text_is_not_enough() {
    let texts = vec!["5".to_string()];
    assert_eq!(
        win_loss_from_texts(&texts).unwrap_err(),
        ExtractionError::MarkersNotFound
    );
}

#[test]
fn a_non_numeric_text_is_not_a_counter() {
    let texts = vec!["5".to_string(), "3 losses".to_string()];
    assert_eq!(
        win_loss_from_texts(&texts).unwrap_err(),
        ExtractionError::MarkersNotFound
    );
}

fn marker_div(text: &str) -> String {
    let mut s = String::new();
    s.push_str("<div class=\"MuiTypography-root MuiTypography-body1 css-1i7pcxu\">");
    s.push_str(text);
    s.push_str("</div>");
    s
}

fn profile_page(wins: &str, losses: &str) -> String {
    let mut s = String::new();
    s.push_str("<html><body><h1>player</h1>");
    s.push_str(marker_div(wins).as_str());
    s.push_str(marker_div(losses).as_str());
    s.push_str("</body></html>");
    s
}

#[test]
fn extract_reads_wins_and_losses() {
    let record = get_win_loss_data(profile_page("5", "3")).unwrap();
    assert_eq!(record, WinLossData::new(5, 3));
}

#[test]
fn extract_reads_explicit_zero() {
    let record = get_win_loss_data(profile_page("0", "0")).unwrap();
    assert_eq!(record, WinLossData::new(0, 0));
}

#[test]
fn extract_fails_without_markers() {
    let page = "<html><body><p>nothing here shows 5 wins or 3 losses</p></body></html>";
    let r = get_win_loss_data(page.to_string());
    assert_eq!(r.unwrap_err(), ExtractionError::MarkersNotFound);
}

#[test]
fn extract_fails_with_one_marker() {
    let mut page = String::new();
    page.push_str("<html><body>");
    page.push_str(marker_div("5").as_str());
    page.push_str("</body></html>");
    let r = get_win_loss_data(page);
    assert_eq!(r.unwrap_err(), ExtractionError::MarkersNotFound);
}

#[test]
fn extract_fails_on_non_numeric_marker_text() {
    let r = get_win_loss_data(profile_page("five", "3"));
    assert_eq!(r.unwrap_err(), ExtractionError::MarkersNotFound);
}

#[test]
fn extract_ignores_elements_without_all_marker_classes() {
    let mut page = String::new();
    page.push_str("<html><body>");
    page.push_str("<div class=\"MuiTypography-root\">9</div>");
    page.push_str(marker_div("12").as_str());
    page.push_str(marker_div("7").as_str());
    page.push_str("</body></html>");
    let record = get_win_loss_data(page).unwrap();
    assert_eq!(record, WinLossData::new(12, 7));
}
