use session_auth::pages::{find_content_marker, get_index_html_head, get_index_html_tail};

#[test]
fn splits_a_page_around_the_marker() {
    let html = b"<html><body><content /></body></html>".to_vec();
    assert_eq!(find_content_marker(&html), Some(12));
    assert_eq!(get_index_html_head(&html), b"<html><body>".to_vec());
    assert_eq!(get_index_html_tail(&html), b"</body></html>".to_vec());
}

#[test]
fn splits_at_the_first_of_several_markers() {
    let html = b"a<content />b<content />c".to_vec();
    assert_eq!(find_content_marker(&html), Some(1));
    assert_eq!(get_index_html_head(&html), b"a".to_vec());
    assert_eq!(get_index_html_tail(&html), b"b<content />c".to_vec());
}

#[test]
fn marker_at_the_edges_leaves_an_empty_part() {
    let html = b"<content />tail only".to_vec();
    assert_eq!(get_index_html_head(&html), b"".to_vec());
    assert_eq!(get_index_html_tail(&html), b"tail only".to_vec());

    let html = b"head only<content />".to_vec();
    assert_eq!(get_index_html_head(&html), b"head only".to_vec());
    assert_eq!(get_index_html_tail(&html), b"".to_vec());
}

#[test]
fn reports_a_missing_marker() {
    assert_eq!(find_content_marker(&b"no marker here".to_vec()), None);
    assert_eq!(find_content_marker(&b"".to_vec()), None);
    assert_eq!(find_content_marker(&b"<content/>".to_vec()), None);
    // A page shorter than the marker cannot contain it.
    assert_eq!(find_content_marker(&b"<content *".to_vec()), None);
}
