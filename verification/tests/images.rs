use sync_msteams_jira_comments::ms_graph_api::image::attachment_id_or;
use sync_msteams_jira_comments::ms_graph_api::image::extract_hosted_contents;
use sync_msteams_jira_comments::ms_graph_api::image::get_image_extension;
use sync_msteams_jira_comments::ms_graph_api::image::get_image_id;
use sync_msteams_jira_comments::ms_graph_api::image::get_teams_attachment_id;
use sync_msteams_jira_comments::ms_graph_api::image::keep_participating;
use sync_msteams_jira_comments::ms_graph_api::image::GraphApiImage;
use sync_msteams_jira_comments::ms_graph_api::image::ImageIdError;

const SEGMENT: &str = "aWQ9MC13ZXUtZDEtYWJjMTIzLHR5cGU9MSx1cmw9aHR0cHM6Ly9ldS1hcGkuYXNtLnNreXBlLmNvbS92MS9vYmplY3RzLzAtd2V1LWQxLWFiYzEyMy92aWV3cy9pbWdv";

fn hosted(segment: &str) -> String {
    format!(
        "https://graph.microsoft.com/v1.0/teams/g-1/channels/19:c@thread.tacv2/messages/1700000000000/hostedContents/{}/$value",
        segment
    )
}

#[test]
fn hosted_content_segment_is_extracted() {
    assert_eq!(extract_hosted_contents(&hosted(SEGMENT)), Ok(vec![SEGMENT.to_string()]));
    let two = format!("{} {}", hosted("abc"), hosted("def"));
    assert_eq!(extract_hosted_contents(&two), Ok(vec!["abc".to_string(), "def".to_string()]));
    assert_eq!(extract_hosted_contents("https://graph.microsoft.com/v1.0/users/1"), Ok(Vec::new()));
    assert_eq!(extract_hosted_contents(""), Ok(Vec::new()));
}

#[test]
fn participating_groups_are_kept_in_order() {
    let groups = vec![Some("a".to_string()), None, Some("b".to_string()), None];
    assert_eq!(keep_participating(groups), vec!["a".to_string(), "b".to_string()]);
    assert_eq!(keep_participating(Vec::new()), Vec::<String>::new());
}

#[test]
fn content_id_is_read_from_the_segment() {
    assert_eq!(get_image_id(SEGMENT), Ok("0-weu-d1-abc123".to_string()));
}

#[test]
fn content_id_errors() {
    assert_eq!(get_image_id("***"), Err(ImageIdError::Undecodable));
    assert_eq!(get_image_id("__4="), Err(ImageIdError::NotText));
    assert_eq!(get_image_id("dHlwZT0xLHVybD1ub25l"), Err(ImageIdError::Missing));
}

#[test]
fn attachment_id_prefers_the_embedded_id() {
    assert_eq!(
        attachment_id_or(&hosted(SEGMENT), "fallback".to_string()),
        Ok("0-weu-d1-abc123".to_string())
    );
    assert_eq!(
        attachment_id_or(&hosted("dHlwZT0xLHVybD1ub25l"), "fallback".to_string()),
        Ok("fallback".to_string())
    );
    assert_eq!(
        attachment_id_or("https://graph.microsoft.com/v1.0/users/1", "fallback".to_string()),
        Ok("fallback".to_string())
    );
}

#[test]
fn missing_id_falls_back_to_a_random_identifier() {
    let url = "https://graph.microsoft.com/v1.0/users/1/photo";
    let a = get_teams_attachment_id(url).unwrap_or_default();
    let b = get_teams_attachment_id(url).unwrap_or_default();
    assert_eq!(a.len(), 36);
    assert_eq!(a.matches('-').count(), 4);
    assert!(a.chars().all(|c| c == '-' || c.is_ascii_hexdigit()));
    assert_ne!(a, b);
    assert_eq!(get_teams_attachment_id(&hosted(SEGMENT)), Ok("0-weu-d1-abc123".to_string()));
}

#[test]
fn extension_follows_the_content_type() {
    assert_eq!(get_image_extension(&Some("image/png".to_string())), "png");
    assert_eq!(get_image_extension(&Some("image/jpeg".to_string())), "jpg");
    assert_eq!(get_image_extension(&Some("image/gif".to_string())), "gif");
    assert_eq!(get_image_extension(&Some("image/svg+xml".to_string())), "svg");
    assert_eq!(get_image_extension(&Some("image/webp".to_string())), "ext");
    assert_eq!(get_image_extension(&Some("IMAGE/PNG".to_string())), "ext");
    assert_eq!(get_image_extension(&Some("image/png; charset=x".to_string())), "ext");
    assert_eq!(get_image_extension(&None), "ext");
}

#[test]
fn downloaded_image_is_named_after_id_and_type() {
    let made = GraphApiImage::from_download(&hosted(SEGMENT), Some("image/jpeg".to_string()), vec![9, 8]);
    match made {
        Ok(img) => {
            assert_eq!(img.name, "0-weu-d1-abc123.jpg");
            assert_eq!(img.data, vec![9, 8]);
            assert_eq!(img.mime_str, "image/jpeg");
        }
        Err(e) => panic!("unexpected {:?}", e),
    }
}

#[test]
fn download_without_content_type_gets_the_default_extension() {
    let made = GraphApiImage::named_or(&hosted("???"), None, Vec::new(), "fb".to_string());
    match made {
        Ok(img) => {
            assert_eq!(img.name, "fb.ext");
            assert_eq!(img.mime_str, "");
            assert!(img.data.is_empty());
        }
        Err(e) => panic!("unexpected {:?}", e),
    }
}
