use r2cn_core::email::cid_images_for_template;

#[test]
fn known_templates_embed_their_status_picture() {
    assert_eq!(
        cid_images_for_template("task_assigned.mjml"),
        vec![("templates/image/background.png", "background"), ("templates/image/task_assigned.png", "task_status")]
    );
    assert_eq!(
        cid_images_for_template("task_failed.mjml")[1],
        ("templates/image/task_failed.png", "task_status")
    );
    assert_eq!(
        cid_images_for_template("task_completed_points.mjml")[1],
        ("templates/image/task_completed.png", "task_status")
    );
    assert_eq!(
        cid_images_for_template("monthly_points_summary.mjml")[1],
        ("templates/image/task_points.png", "task_status")
    );
}

#[test]
fn other_templates_embed_only_the_background() {
    assert_eq!(
        cid_images_for_template("score_count_email.html"),
        vec![("templates/image/background.png", "background")]
    );
    assert_eq!(cid_images_for_template("").len(), 1);
}
