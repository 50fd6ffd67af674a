//! What the notification templates need from the library: the inline images
//! of each template and the links they show.
use vstd::prelude::*;
use vstd::string::StringExecFns;
use crate::task::Task;

verus! {

/// The status picture a template embeds besides the background, if any.
pub open spec fn status_image(template_name: Seq<char>) -> Option<Seq<char>> {
    if template_name == "task_assigned.mjml"@ {
        Some("templates/image/task_assigned.png"@)
    } else if template_name == "task_failed.mjml"@ {
        Some("templates/image/task_failed.png"@)
    } else if template_name == "task_completed_points.mjml"@ {
        Some("templates/image/task_completed.png"@)
    } else if template_name == "monthly_points_summary.mjml"@ {
        Some("templates/image/task_points.png"@)
    } else {
        None
    }
}

fn same_text(a: &str, b: &str) -> (r: bool)
    ensures
        r == (a@ == b@),
{
    String::from_str(a) == String::from_str(b)
}

/// The images to embed in a template, as (file path, content id) pairs: the
/// background always, then the status picture of the known templates.
pub fn cid_images_for_template(template_name: &str) -> (r: Vec<(&'static str, &'static str)>)
    ensures
        r@.len() == (if status_image(template_name@) is Some { 2int } else { 1int }),
        r@[0].0@ == "templates/image/background.png"@,
        r@[0].1@ == "background"@,
        status_image(template_name@) matches Some(p) ==> r@[1].0@ == p && r@[1].1@
            == "task_status"@,
{
    let mut imgs: Vec<(&'static str, &'static str)> = vec![
        ("templates/image/background.png", "background"),
    ];
    if same_text(template_name, "task_assigned.mjml") {
        imgs.push(("templates/image/task_assigned.png", "task_status"));
    } else if same_text(template_name, "task_failed.mjml") {
        imgs.push(("templates/image/task_failed.png", "task_status"));
    } else if same_text(template_name, "task_completed_points.mjml") {
        imgs.push(("templates/image/task_completed.png", "task_status"));
    } else if same_text(template_name, "monthly_points_summary.mjml") {
        imgs.push(("templates/image/task_points.png", "task_status"));
    }
    imgs
}

/// Link to the repository a task's issue belongs to.
pub fn project_link(task: &Task) -> (r: String)
    ensures
        r@ == "https://github.com/"@ + task.owner@ + "/"@ + task.repo@,
{
    let mut link = String::from_str("https://github.com/");
    link.append(task.owner.as_str());
    link.append("/");
    link.append(task.repo.as_str());
    link
}

} // verus!
