use unchartable::chart::{chart_text_value, normalized_match_value, structure_error, ChartIdentity};
use unchartable::matching::{chart_matches_manual_identity, unique_manual_match, SiteChart};

struct Candidate {
    id: &'static str,
    chart: SiteChart,
    duration: Option<f64>,
}

fn candidate(id: &'static str, title: &str, artist: &str, charter: &str, duration: f64) -> Candidate {
    Candidate {
        id,
        chart: SiteChart {
            title: Some(title.to_string()),
            artist: Some(artist.to_string()),
            charter_names: vec![charter.to_string()],
        },
        duration: Some(duration),
    }
}

/// The identity a manual chart text declares, and its song length.
fn manual_identity(body: &str) -> (ChartIdentity, Option<f64>) {
    let mut identity = ChartIdentity::new();
    let tags = identity.absorb_chart_text(body);
    let duration = tags
        .and_then(|tags| serde_json::from_str::<serde_json::Value>(&tags).ok())
        .and_then(|tags| tags.get("SongLength")?.as_f64());
    (identity, duration)
}

fn best_match(candidates: &[Candidate], identity: &ChartIdentity, local: Option<f64>) -> Option<&'static str> {
    let charts: Vec<SiteChart> = candidates
        .iter()
        .map(|c| SiteChart {
            title: c.chart.title.clone(),
            artist: c.chart.artist.clone(),
            charter_names: c.chart.charter_names.clone(),
        })
        .collect();
    let agree: Vec<bool> = candidates
        .iter()
        .map(|c| match (local, c.duration) {
            (Some(local), Some(remote)) => (local - remote).abs() <= 3.0,
            _ => true,
        })
        .collect();
    unique_manual_match(&charts, &agree, identity).map(|index| candidates[index].id)
}

#[test]
fn matches_same_song_to_the_correct_charter_only() {
    let (identity, duration) = manual_identity(
        "[Metadata]\nTitle:Same Song\nArtist:Same Artist\nCreator:Alice\nTags:{\"SongLength\":120.5}",
    );
    let candidates = vec![
        candidate("alice-chart", "Same Song", "Same Artist", "Alice", 120.0),
        candidate("bob-chart", "Same Song", "Same Artist", "Bob", 120.0),
    ];

    let matched = best_match(&candidates, &identity, duration).expect("unique Alice chart");

    assert_eq!(matched, "alice-chart");
    assert_eq!(identity.creator_label.as_deref(), Some("Alice"));
}

#[test]
fn refuses_an_ambiguous_manual_chart_match() {
    let (identity, duration) = manual_identity(
        "[Metadata]\nTitle:Same Song\nArtist:Same Artist\nCreator:Alice\nTags:{\"SongLength\":120}",
    );
    let candidates = vec![
        candidate("first-upload", "Same Song", "Same Artist", "Alice", 120.0),
        candidate("second-upload", "Same Song", "Same Artist", "Alice", 121.0),
    ];

    assert!(best_match(&candidates, &identity, duration).is_none());
}

#[test]
fn rejects_a_manual_match_with_a_different_duration() {
    let (identity, duration) = manual_identity(
        "[Metadata]\nTitle:Same Song\nArtist:Same Artist\nCreator:Alice\nTags:{\"SongLength\":120}",
    );
    let candidates = vec![candidate("wrong-audio", "Same Song", "Same Artist", "Alice", 180.0)];

    assert!(best_match(&candidates, &identity, duration).is_none());
}

#[test]
fn reads_the_first_nonempty_value_of_a_key() {
    let body = "[Metadata]\r\nTitle:   \r\n title : First \r\nTitle:Second\nArtist:X";
    assert_eq!(chart_text_value(body, "Title").as_deref(), Some("First"));
    assert_eq!(chart_text_value(body, "TITLE").as_deref(), Some("First"));
    assert_eq!(chart_text_value(body, "Artist").as_deref(), Some("X"));
    assert_eq!(chart_text_value(body, "Creator"), None);
    assert_eq!(chart_text_value("", "Title"), None);
    assert_eq!(chart_text_value("Tags:{\"a\":1}\n", "Tags").as_deref(), Some("{\"a\":1}"));
    assert_eq!(chart_text_value("Title:a:b", "Title").as_deref(), Some("a:b"));
}

#[test]
fn keeps_a_bare_carriage_return_on_the_last_line() {
    assert_eq!(chart_text_value("Title:Song\r", "Title").as_deref(), Some("Song"));
    assert_eq!(chart_text_value("Title:So\rng", "Title").as_deref(), Some("So\rng"));
}

#[test]
fn normalizes_match_values() {
    assert_eq!(normalized_match_value("Same Song!"), "samesong");
    assert_eq!(normalized_match_value("ÄBC-123"), "äbc123");
    assert_eq!(normalized_match_value("   "), "");
}

#[test]
fn takes_unicode_titles_only_when_plain_ones_are_missing() {
    let mut identity = ChartIdentity::new();
    identity.absorb_chart_text("TitleUnicode:歌\nArtistUnicode:歌手\nCreator:Bob");
    identity.absorb_chart_text("Title:Later\nArtist:Later\nCreator:Alice\nCreator:Bob");
    assert_eq!(identity.title, "歌");
    assert_eq!(identity.artist, "歌手");
    assert_eq!(identity.creator_label.as_deref(), Some("Bob"));
    assert_eq!(identity.creators, vec!["bob".to_string(), "alice".to_string()]);
    assert!(identity.is_complete());
}

#[test]
fn needs_a_title_and_an_artist() {
    let mut identity = ChartIdentity::new();
    identity.absorb_chart_text("Title:Only Title");
    assert!(!identity.is_complete());
}

#[test]
fn site_match_needs_creators_and_agreeing_lengths() {
    let mut identity = ChartIdentity::new();
    identity.absorb_chart_text("Title:Song\nArtist:Band");
    let site = SiteChart {
        title: Some("song".to_string()),
        artist: Some("BAND".to_string()),
        charter_names: vec!["Alice".to_string()],
    };
    assert!(!chart_matches_manual_identity(&site, &identity, true));
    identity.absorb_chart_text("Creator:A-lice");
    assert!(chart_matches_manual_identity(&site, &identity, true));
    assert!(!chart_matches_manual_identity(&site, &identity, false));
    let untitled = SiteChart { title: None, artist: Some("Band".to_string()), charter_names: vec!["Alice".to_string()] };
    assert!(!chart_matches_manual_identity(&untitled, &identity, true));
}

#[test]
fn words_missing_chart_parts() {
    assert_eq!(structure_error(true, true, true), None);
    assert_eq!(
        structure_error(false, false, true).as_deref(),
        Some("the archive contains neither chart .txt files nor supported audio.")
    );
    assert_eq!(
        structure_error(false, false, false).as_deref(),
        Some("the archive does not contain a recognizable chart file or audio file.")
    );
    assert_eq!(
        structure_error(false, true, false).as_deref(),
        Some("the archive contains audio but no chart .txt file.")
    );
    assert_eq!(
        structure_error(true, false, true).as_deref(),
        Some("the archive contains chart data but no supported audio file.")
    );
}
