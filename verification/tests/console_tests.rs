use dd_unqueried_metrics::console::{echo_line, summary_line};
use dd_unqueried_metrics::request::FetchError;
use dd_unqueried_metrics::run::RunError;

#[test]
fn the_summary_counts_the_records() {
    assert_eq!(summary_line(0), "0 metrics found and exported.");
    assert_eq!(summary_line(1), "1 metrics found and exported.");
    assert_eq!(summary_line(2), "2 metrics found and exported.");
    assert_eq!(summary_line(10), "10 metrics found and exported.");
    assert_eq!(summary_line(1234567), "1234567 metrics found and exported.");
    assert_eq!(summary_line(usize::MAX), format!("{} metrics found and exported.", usize::MAX));
}

#[test]
fn the_echo_quotes_the_identifier() {
    assert_eq!(echo_line("my.metric.one"), "Writing Metric ID: \"my.metric.one\"");
    assert_eq!(echo_line(""), "Writing Metric ID: \"\"");
    assert_eq!(echo_line("say \"hi\""), "Writing Metric ID: \"say \\\"hi\\\"\"");
    assert_eq!(echo_line("two\nlines"), "Writing Metric ID: \"two\\nlines\"");
}

#[test]
fn every_failure_has_its_words() {
    assert_eq!(RunError::CredentialInput.describe(), "Failed to read line");
    assert_eq!(
        RunError::Fetch(FetchError::Transport).describe(),
        "the request for the metrics failed"
    );
    assert_eq!(
        RunError::Fetch(FetchError::Decode).describe(),
        "the response is not the expected JSON document"
    );
    assert_eq!(RunError::Io.describe(), "the export file could not be written");
}
