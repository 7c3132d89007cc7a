//! Embedded images and file links in ticket text, and the reconciliation of
//! a ticket's attachments with the images that the current text refers to.

use crate::ms_graph_api::image::GraphApiImage;
use crate::ms_graph_api::message::TeamsAttachment;
use crate::pattern::escape;
use crate::pattern::escaped;
use crate::pattern::find_all;
use crate::pattern::regex_find_all;
use crate::pattern::regex_replace_all;
use crate::pattern::replace_all;
use crate::pattern::PatternError;
use crate::sorting::is_sorted_set_of;
use crate::sorting::sorted_unique;
use crate::text::occurs_in;
use crate::text::str_contains;
use crate::text::str_eq;
use crate::text::substring;
use vstd::prelude::*;
use vstd::string::*;

verus! {

/// A file attached to a ticket.
pub struct JiraAttachment {
    pub id: String,
    pub filename: String,
}

impl Clone for JiraAttachment {
    fn clone(&self) -> (r: Self)
        ensures
            r == *self,
    {
        JiraAttachment { id: self.id.clone(), filename: self.filename.clone() }
    }
}

/// An image that was downloaded from `url`.
pub struct FetchedImage {
    pub url: String,
    pub image: GraphApiImage,
}

/// What has to change on a ticket so that its attachments are those of the
/// current text: the ids of attachments to delete, and the positions (in the
/// list of current images) of images to upload.
pub struct AttachmentPlan {
    pub delete: Vec<String>,
    pub upload: Vec<usize>,
}

/// Addresses of content hosted by the chat platform.
pub const GRAPH_URL_PATTERN: &'static str =
    "https://graph\\.microsoft\\.com/v1\\.0/[^\\s\\|\\]\\\\\\\"]*";

/// The placeholder that stands for an attached image in ticket text; between
/// the marks is the file name.
pub const PLACEHOLDER_PATTERN: &'static str = "\n\n!+([^!]+)!\n\n";

/// What precedes the address in the pattern of an image tag.
pub const IMG_TAG_HEAD: &'static str = "<img[^>]*?src\\s*=\\s*['\"]?";

/// What follows the address in the pattern of an image tag.
pub const IMG_TAG_TAIL: &'static str = "['\"]?[^>]*?/?>";

/// The link line that is appended for an attached file.
pub open spec fn link_line(name: Seq<char>, url: Seq<char>) -> Seq<char> {
    "\n\n["@ + name + "|"@ + url + "]"@
}

/// `description` followed by a link line for every attachment that has both
/// an address and a name and whose address the text does not hold yet.
pub open spec fn with_attachment_links(
    description: Seq<char>,
    attachments: Seq<TeamsAttachment>,
) -> Seq<char>
    decreases attachments.len(),
{
    if attachments.len() == 0 {
        description
    } else {
        let so_far = with_attachment_links(description, attachments.drop_last());
        match (attachments.last().content_url, attachments.last().name) {
            (Some(url), Some(name)) => if occurs_in(so_far, url@) {
                so_far
            } else {
                so_far + link_line(name@, url@)
            },
            _ => so_far,
        }
    }
}

/// The pattern that matches an image tag whose source is `url`.
pub open spec fn img_tag_pattern(url: Seq<char>) -> Seq<char> {
    IMG_TAG_HEAD@ + escaped(url) + IMG_TAG_TAIL@
}

/// The placeholder text for the attached image called `name`.
pub open spec fn placeholder(name: Seq<char>) -> Seq<char> {
    "\n\n!"@ + name + "!\n\n"@
}

/// `description` with the tags of the fetched images replaced by
/// placeholders, one image after the other; `None` where the matching engine
/// refuses a pattern.
pub open spec fn with_images_placed(description: Seq<char>, fetched: Seq<FetchedImage>) -> Option<
    Seq<char>,
>
    decreases fetched.len(),
{
    if fetched.len() == 0 {
        Some(description)
    } else {
        match with_images_placed(description, fetched.drop_last()) {
            None => None,
            Some(so_far) => regex_replace_all(
                img_tag_pattern(fetched.last().url@),
                so_far,
                placeholder(fetched.last().image.name@),
            ),
        }
    }
}

/// The file names inside placeholder matches: a match of more than six
/// characters gives what is left without its first and last three.
pub open spec fn placeholder_names(matches: Seq<Seq<char>>) -> Seq<Seq<char>>
    decreases matches.len(),
{
    if matches.len() == 0 {
        Seq::empty()
    } else if matches.last().len() > 6 {
        placeholder_names(matches.drop_last()).push(
            matches.last().subrange(3, matches.last().len() - 3),
        )
    } else {
        placeholder_names(matches.drop_last())
    }
}

/// The names of a list of images.
pub open spec fn names_of(images: Seq<GraphApiImage>) -> Seq<Seq<char>> {
    Seq::new(images.len(), |i: int| images[i].name@)
}

/// Position of the first attachment called `name`, or `-1`.
pub open spec fn filename_index(attachments: Seq<JiraAttachment>, name: Seq<char>) -> int
    decreases attachments.len(),
{
    if attachments.len() == 0 {
        -1
    } else {
        let earlier = filename_index(attachments.drop_last(), name);
        if earlier >= 0 {
            earlier
        } else if attachments.last().filename@ == name {
            attachments.len() - 1
        } else {
            -1
        }
    }
}

/// The attachments that a ticket has, an unknown list counting as empty.
pub open spec fn known(existing: Option<Seq<JiraAttachment>>) -> Seq<JiraAttachment> {
    match existing {
        Some(attachments) => attachments,
        None => Seq::empty(),
    }
}

/// The attachment was placed by the previous text and is no longer
/// referred to by the current images.
pub open spec fn is_stale(
    attachment: JiraAttachment,
    old_names: Seq<Seq<char>>,
    new_names: Seq<Seq<char>>,
) -> bool {
    old_names.contains(attachment.filename@) && !new_names.contains(attachment.filename@)
}

/// The ids to delete: those of all stale attachments, in the order of the
/// attachments.
pub open spec fn deletions(
    existing: Seq<JiraAttachment>,
    old_names: Seq<Seq<char>>,
    new_names: Seq<Seq<char>>,
) -> Seq<Seq<char>>
    decreases existing.len(),
{
    if existing.len() == 0 {
        Seq::empty()
    } else {
        let rest = deletions(existing.drop_last(), old_names, new_names);
        if is_stale(existing.last(), old_names, new_names) {
            rest.push(existing.last().id@)
        } else {
            rest
        }
    }
}

/// The positions to upload: every current image whose name no attachment
/// has yet.
pub open spec fn uploads(existing: Seq<JiraAttachment>, new_names: Seq<Seq<char>>) -> Seq<int>
    decreases new_names.len(),
{
    if new_names.len() == 0 {
        Seq::empty()
    } else {
        let rest = uploads(existing, new_names.drop_last());
        if filename_index(existing, new_names.last()) < 0 {
            rest.push(new_names.len() - 1)
        } else {
            rest
        }
    }
}

/// The positions in a plan's upload list, as integers.
pub open spec fn upload_positions(plan: AttachmentPlan) -> Seq<int> {
    Seq::new(plan.upload@.len(), |i: int| plan.upload@[i] as int)
}

/// `plan` is what reconciliation calls for.
pub open spec fn is_plan_for(
    plan: AttachmentPlan,
    existing: Option<Seq<JiraAttachment>>,
    old_names: Seq<Seq<char>>,
    new_names: Seq<Seq<char>>,
) -> bool {
    &&& plan.delete.deep_view() == deletions(known(existing), old_names, new_names)
    &&& upload_positions(plan) == uploads(known(existing), new_names)
}

/// Appends a link line for every attached file that the text does not refer
/// to yet, and tells whether anything was appended.
pub fn add_attachments_urls_to_description(
    description: &mut String,
    attachments: &Vec<TeamsAttachment>,
) -> (updated: bool)
    ensures
        final(description)@ == with_attachment_links(old(description)@, attachments@),
        updated == (final(description)@ != old(description)@),
{
    let mut updated = false;
    let mut k: usize = 0;
    while k < attachments.len()
        invariant
            k <= attachments.len(),
            description@ == with_attachment_links(old(description)@, attachments@.take(k as int)),
            updated == (description@ != old(description)@),
            description@.len() >= old(description)@.len(),
        decreases attachments.len() - k,
    {
        let ghost seen = attachments@.take(k as int);
        let ghost next = attachments@.take(k + 1);
        assert(next.drop_last() =~= seen);
        assert(next.last() == attachments@[k as int]);
        let ghost so_far = description@;
        match (&attachments[k].content_url, &attachments[k].name) {
            (Some(url), Some(name)) => {
                if !str_contains(description.as_str(), url.as_str()) {
                    description.append("\n\n[");
                    description.append(name.as_str());
                    description.append("|");
                    description.append(url.as_str());
                    description.append("]");
                    updated = true;
                    proof {
                        reveal_strlit("\n\n[");
                        assert(description@ =~= so_far + link_line(name@, url@));
                        assert(description@.len() > so_far.len());
                    }
                }
            },
            _ => {},
        }
        k += 1;
    }
    assert(attachments@.take(k as int) =~= attachments@);
    updated
}

/// The distinct hosted-content addresses in `description`, in increasing
/// order.
pub fn extract_image_refs(description: &str) -> (r: Result<Vec<String>, PatternError>)
    ensures
        match r {
            Ok(urls) => regex_find_all(GRAPH_URL_PATTERN@, description@) is Some
                && is_sorted_set_of(
                urls.deep_view(),
                regex_find_all(GRAPH_URL_PATTERN@, description@)->0,
            ),
            Err(_) => regex_find_all(GRAPH_URL_PATTERN@, description@) is None,
        },
{
    match find_all(GRAPH_URL_PATTERN, description) {
        Ok(found) => Ok(sorted_unique(&found)),
        Err(_) => Err(PatternError::Rejected),
    }
}

/// Replaces every image tag whose source is `search_url` by the placeholder
/// for the attachment called `replace_with`.
pub fn replace_img_tag_for_jira(text: &str, search_url: &str, replace_with: &str) -> (r: Result<
    String,
    PatternError,
>)
    ensures
        match r {
            Ok(out) => regex_replace_all(
                img_tag_pattern(search_url@),
                text@,
                placeholder(replace_with@),
            ) == Some(out@),
            Err(_) => regex_replace_all(
                img_tag_pattern(search_url@),
                text@,
                placeholder(replace_with@),
            ) is None,
        },
{
    let mut pattern = IMG_TAG_HEAD.to_string();
    pattern.append(escape(search_url).as_str());
    pattern.append(IMG_TAG_TAIL);
    let mut replacement = "\n\n!".to_string();
    replacement.append(replace_with);
    replacement.append("!\n\n");
    match replace_all(pattern.as_str(), text, replacement.as_str()) {
        Ok(out) => Ok(out),
        Err(_) => Err(PatternError::Rejected),
    }
}

/// Replaces the tags of the fetched images by placeholders, one image after
/// the other.
pub fn replace_images_in_description(description: &str, fetched: &Vec<FetchedImage>) -> (r: Result<
    String,
    PatternError,
>)
    ensures
        match r {
            Ok(out) => with_images_placed(description@, fetched@) == Some(out@),
            Err(_) => with_images_placed(description@, fetched@) is None,
        },
{
    let mut text = description.to_string();
    let mut k: usize = 0;
    while k < fetched.len()
        invariant
            k <= fetched.len(),
            with_images_placed(description@, fetched@.take(k as int)) == Some(text@),
        decreases fetched.len() - k,
    {
        let ghost next = fetched@.take(k + 1);
        assert(next.drop_last() =~= fetched@.take(k as int));
        assert(next.last() == fetched@[k as int]);
        match replace_img_tag_for_jira(
            text.as_str(),
            fetched[k].url.as_str(),
            fetched[k].image.name.as_str(),
        ) {
            Ok(out) => {
                text = out;
            },
            Err(e) => {
                proof {
                    lemma_placing_stays_refused(description@, fetched@, k + 1);
                }
                return Err(e);
            },
        }
        k += 1;
    }
    assert(fetched@.take(k as int) =~= fetched@);
    Ok(text)
}

/// Once the engine has refused a pattern, placing further images does not
/// bring a result back.
pub proof fn lemma_placing_stays_refused(
    description: Seq<char>,
    fetched: Seq<FetchedImage>,
    k: int,
)
    requires
        0 <= k <= fetched.len(),
        with_images_placed(description, fetched.take(k)) is None,
    ensures
        with_images_placed(description, fetched) is None,
    decreases fetched.len() - k,
{
    if k < fetched.len() {
        assert(fetched.take(k + 1).drop_last() =~= fetched.take(k));
        lemma_placing_stays_refused(description, fetched, k + 1);
    } else {
        assert(fetched.take(k) =~= fetched);
    }
}

/// The file names inside a list of placeholder matches.
pub fn names_in_placeholders(matches: &Vec<String>) -> (names: Vec<String>)
    ensures
        names.deep_view() == placeholder_names(matches.deep_view()),
{
    let mut names: Vec<String> = Vec::new();
    let mut k: usize = 0;
    while k < matches.len()
        invariant
            k <= matches.len(),
            names.deep_view() == placeholder_names(matches.deep_view().take(k as int)),
        decreases matches.len() - k,
    {
        let ghost next = matches.deep_view().take(k + 1);
        assert(next.drop_last() =~= matches.deep_view().take(k as int));
        assert(next.last() == matches@[k as int]@);
        let ghost before = names.deep_view();
        let length = matches[k].as_str().unicode_len();
        if length > 6 {
            let name = substring(matches[k].as_str(), 3, length - 3);
            names.push(name);
            assert(names.deep_view() =~= before.push(name@));
        }
        k += 1;
    }
    assert(matches.deep_view().take(k as int) =~= matches.deep_view());
    names
}

/// The file names of the images that `description` holds placeholders for.
pub fn find_old_attached_images(description: &str) -> (r: Result<Vec<String>, PatternError>)
    ensures
        match r {
            Ok(names) => regex_find_all(PLACEHOLDER_PATTERN@, description@) is Some
                && names.deep_view() == placeholder_names(
                regex_find_all(PLACEHOLDER_PATTERN@, description@)->0,
            ),
            Err(_) => regex_find_all(PLACEHOLDER_PATTERN@, description@) is None,
        },
{
    match find_all(PLACEHOLDER_PATTERN, description) {
        Ok(found) => Ok(names_in_placeholders(&found)),
        Err(_) => Err(PatternError::Rejected),
    }
}

/// Position of the first attachment called `name`.
pub fn find_attachment(attachments: &Vec<JiraAttachment>, name: &str) -> (r: Option<usize>)
    ensures
        match r {
            Some(at) => at as int == filename_index(attachments@, name@) && at < attachments.len(),
            None => filename_index(attachments@, name@) < 0,
        },
{
    let mut k: usize = 0;
    while k < attachments.len()
        invariant
            k <= attachments.len(),
            filename_index(attachments@.take(k as int), name@) < 0,
        decreases attachments.len() - k,
    {
        let ghost next = attachments@.take(k + 1);
        assert(next.drop_last() =~= attachments@.take(k as int));
        assert(next.last() == attachments@[k as int]);
        if str_eq(attachments[k].filename.as_str(), name) {
            proof {
                lemma_filename_index_stable(attachments@, name@, k + 1);
            }
            return Some(k);
        }
        k += 1;
    }
    assert(attachments@.take(k as int) =~= attachments@);
    None
}

/// A hit among the first `k` attachments is the hit in the whole list.
pub proof fn lemma_filename_index_stable(attachments: Seq<JiraAttachment>, name: Seq<char>, k: int)
    requires
        0 <= k <= attachments.len(),
        filename_index(attachments.take(k), name) >= 0,
    ensures
        filename_index(attachments, name) == filename_index(attachments.take(k), name),
    decreases attachments.len() - k,
{
    if k < attachments.len() {
        assert(attachments.take(k + 1).drop_last() =~= attachments.take(k));
        lemma_filename_index_stable(attachments, name, k + 1);
    } else {
        assert(attachments.take(k) =~= attachments);
    }
}

/// Whether `name` is one of `names`.
pub fn contains_name(names: &Vec<String>, name: &str) -> (r: bool)
    ensures
        r == names.deep_view().contains(name@),
{
    let mut k: usize = 0;
    while k < names.len()
        invariant
            k <= names.len(),
            forall|i: int| 0 <= i < k ==> names@[i]@ != name@,
        decreases names.len() - k,
    {
        if str_eq(names[k].as_str(), name) {
            assert(names.deep_view()[k as int] == name@);
            return true;
        }
        k += 1;
    }
    assert forall|i: int| 0 <= i < names.deep_view().len() implies names.deep_view()[i]
        != name@ by {
        assert(names.deep_view()[i] == names@[i]@);
    }
    false
}

/// Whether one of the images is called `name`.
pub fn has_image_named(images: &Vec<GraphApiImage>, name: &str) -> (r: bool)
    ensures
        r == names_of(images@).contains(name@),
{
    let mut k: usize = 0;
    while k < images.len()
        invariant
            k <= images.len(),
            forall|i: int| 0 <= i < k ==> images@[i].name@ != name@,
        decreases images.len() - k,
    {
        if str_eq(images[k].name.as_str(), name) {
            assert(names_of(images@)[k as int] == name@);
            return true;
        }
        k += 1;
    }
    false
}

/// Decides what has to change on a ticket whose attachments are `existing`
/// (`None` where the ticket's fields are not known), whose previous text
/// placed the images `old_image_names`, and whose current text refers to
/// `new_images`. Every attachment that the previous text placed and the
/// current images do not name is deleted; every current image whose name
/// no attachment has is uploaded.
pub fn plan_attachment_changes(
    existing: Option<&Vec<JiraAttachment>>,
    old_image_names: &Vec<String>,
    new_images: &Vec<GraphApiImage>,
) -> (plan: AttachmentPlan)
    ensures
        is_plan_for(
            plan,
            match existing {
                Some(attachments) => Some(attachments@),
                None => None,
            },
            old_image_names.deep_view(),
            names_of(new_images@),
        ),
{
    let none: Vec<JiraAttachment> = Vec::new();
    let attachments: &Vec<JiraAttachment> = match existing {
        Some(attachments) => attachments,
        None => &none,
    };
    let ghost new_names = names_of(new_images@);
    let ghost old_names = old_image_names.deep_view();
    let mut delete: Vec<String> = Vec::new();
    let mut k: usize = 0;
    while k < attachments.len()
        invariant
            k <= attachments.len(),
            old_names == old_image_names.deep_view(),
            new_names == names_of(new_images@),
            delete.deep_view() == deletions(attachments@.take(k as int), old_names, new_names),
        decreases attachments.len() - k,
    {
        let ghost next = attachments@.take(k + 1);
        assert(next.drop_last() =~= attachments@.take(k as int));
        assert(next.last() == attachments@[k as int]);
        let ghost before = delete.deep_view();
        if contains_name(old_image_names, attachments[k].filename.as_str()) && !has_image_named(
            new_images,
            attachments[k].filename.as_str(),
        ) {
            delete.push(attachments[k].id.clone());
            assert(delete.deep_view() =~= before.push(attachments@[k as int].id@));
        }
        k += 1;
    }
    assert(attachments@.take(k as int) =~= attachments@);
    let mut upload: Vec<usize> = Vec::new();
    let mut i: usize = 0;
    while i < new_images.len()
        invariant
            i <= new_images.len(),
            new_names == names_of(new_images@),
            Seq::new(upload@.len(), |j: int| upload@[j] as int) == uploads(
                attachments@,
                new_names.take(i as int),
            ),
        decreases new_images.len() - i,
    {
        let ghost next = new_names.take(i + 1);
        assert(next.drop_last() =~= new_names.take(i as int));
        assert(next.last() == new_images@[i as int].name@);
        let ghost before = Seq::new(upload@.len(), |j: int| upload@[j] as int);
        if find_attachment(attachments, new_images[i].name.as_str()).is_none() {
            upload.push(i);
            assert(Seq::new(upload@.len(), |j: int| upload@[j] as int) =~= before.push(i as int));
        }
        i += 1;
    }
    assert(new_names.take(i as int) =~= new_names);
    AttachmentPlan { delete, upload }
}

/// The file names on a ticket once a plan has been carried out: those of the
/// attachments that were not deleted, and those of the uploaded images.
pub open spec fn names_after(
    existing: Seq<JiraAttachment>,
    delete: Seq<Seq<char>>,
    upload: Seq<int>,
    new_names: Seq<Seq<char>>,
) -> Set<Seq<char>> {
    Set::new(
        |name: Seq<char>|
            {
                ||| exists|i: int|
                    0 <= i < existing.len() && #[trigger] existing[i].filename@ == name
                        && !delete.contains(existing[i].id@)
                ||| exists|j: int|
                    0 <= j < upload.len() && 0 <= upload[j] < new_names.len()
                        && #[trigger] new_names[upload[j]] == name
            },
    )
}

/// No two attachments share an id.
pub open spec fn distinct_attachments(existing: Seq<JiraAttachment>) -> bool {
    forall|i: int, j: int| 0 <= i < j < existing.len() ==> existing[i].id@ != existing[j].id@
}

/// Every attachment was placed by the previous text or is referred to by the
/// current one.
pub open spec fn all_accounted_for(
    existing: Seq<JiraAttachment>,
    old_names: Seq<Seq<char>>,
    new_names: Seq<Seq<char>>,
) -> bool {
    forall|i: int|
        0 <= i < existing.len() ==> old_names.contains(#[trigger] existing[i].filename@)
            || new_names.contains(existing[i].filename@)
}

/// What `filename_index` returns is the first attachment of that name.
pub proof fn lemma_filename_index(attachments: Seq<JiraAttachment>, name: Seq<char>)
    ensures
        -1 <= filename_index(attachments, name) < attachments.len(),
        filename_index(attachments, name) >= 0 ==> attachments[filename_index(
            attachments,
            name,
        )].filename@ == name,
        forall|j: int|
            0 <= j < attachments.len() && (j < filename_index(attachments, name)
                || filename_index(attachments, name) < 0) ==> attachments[j].filename@ != name,
    decreases attachments.len(),
{
    if attachments.len() > 0 {
        lemma_filename_index(attachments.drop_last(), name);
        let earlier = filename_index(attachments.drop_last(), name);
        assert forall|j: int|
            0 <= j < attachments.len() && (j < filename_index(attachments, name)
                || filename_index(attachments, name) < 0) implies attachments[j].filename@
            != name by {
            if j < attachments.len() - 1 {
                assert(attachments.drop_last()[j] == attachments[j]);
            }
        }
        if earlier >= 0 {
            assert(attachments.drop_last()[earlier] == attachments[earlier]);
        }
    }
}

/// An id is to be deleted exactly when it belongs to a stale attachment.
pub proof fn lemma_deletions(
    existing: Seq<JiraAttachment>,
    old_names: Seq<Seq<char>>,
    new_names: Seq<Seq<char>>,
    id: Seq<char>,
)
    ensures
        deletions(existing, old_names, new_names).contains(id) <==> exists|i: int|
            0 <= i < existing.len() && (#[trigger] existing[i]).id@ == id && is_stale(
                existing[i],
                old_names,
                new_names,
            ),
    decreases existing.len(),
{
    let all = deletions(existing, old_names, new_names);
    if existing.len() > 0 {
        let front = existing.drop_last();
        let rest = deletions(front, old_names, new_names);
        lemma_deletions(front, old_names, new_names, id);
        let taken = is_stale(existing.last(), old_names, new_names);
        if all.contains(id) {
            let p = choose|p: int| 0 <= p < all.len() && all[p] == id;
            if taken && p == all.len() - 1 {
                assert(existing[existing.len() - 1].id@ == id);
            } else {
                assert(rest[p] == id);
                assert(rest.contains(id));
                let i = choose|i: int|
                    0 <= i < front.len() && (#[trigger] front[i]).id@ == id && is_stale(
                        front[i],
                        old_names,
                        new_names,
                    );
                assert(existing[i] == front[i]);
            }
        }
        if exists|i: int|
            0 <= i < existing.len() && (#[trigger] existing[i]).id@ == id && is_stale(
                existing[i],
                old_names,
                new_names,
            ) {
            let i = choose|i: int|
                0 <= i < existing.len() && (#[trigger] existing[i]).id@ == id && is_stale(
                    existing[i],
                    old_names,
                    new_names,
                );
            if i == existing.len() - 1 {
                assert(all[all.len() - 1] == id);
            } else {
                assert(front[i] == existing[i]);
                assert(rest.contains(id));
                let p = choose|p: int| 0 <= p < rest.len() && rest[p] == id;
                assert(all[p] == id);
            }
        }
    }
}

/// A position is to be uploaded exactly when no attachment has the name of
/// the image at that position.
pub proof fn lemma_uploads(existing: Seq<JiraAttachment>, new_names: Seq<Seq<char>>, at: int)
    ensures
        uploads(existing, new_names).contains(at) <==> 0 <= at < new_names.len()
            && filename_index(existing, new_names[at]) < 0,
    decreases new_names.len(),
{
    let all = uploads(existing, new_names);
    if new_names.len() > 0 {
        let front = new_names.drop_last();
        let rest = uploads(existing, front);
        lemma_uploads(existing, front, at);
        let taken = filename_index(existing, new_names.last()) < 0;
        if all.contains(at) {
            let p = choose|p: int| 0 <= p < all.len() && all[p] == at;
            if !(taken && p == all.len() - 1) {
                assert(rest[p] == at);
                assert(rest.contains(at));
                assert(front[at] == new_names[at]);
            }
        }
        if 0 <= at < new_names.len() && filename_index(existing, new_names[at]) < 0 {
            if at == new_names.len() - 1 {
                assert(all[all.len() - 1] == at);
            } else {
                assert(front[at] == new_names[at]);
                assert(rest.contains(at));
                let p = choose|p: int| 0 <= p < rest.len() && rest[p] == at;
                assert(all[p] == at);
            }
        }
    }
}

/// Reconciliation converges: on a ticket whose attachments have ids of
/// their own and are all accounted for, carrying out the plan leaves exactly
/// the files that the current images name. An attachment that a current
/// image names is never deleted, and an image is uploaded only where no
/// attachment has its name.
pub proof fn lemma_reconciliation_converges(
    existing: Seq<JiraAttachment>,
    old_names: Seq<Seq<char>>,
    new_names: Seq<Seq<char>>,
)
    requires
        distinct_attachments(existing),
        all_accounted_for(existing, old_names, new_names),
    ensures
        forall|name: Seq<char>|
            names_after(
                existing,
                deletions(existing, old_names, new_names),
                uploads(existing, new_names),
                new_names,
            ).contains(name) <==> new_names.contains(name),
        forall|i: int|
            0 <= i < existing.len() && new_names.contains(#[trigger] existing[i].filename@)
                ==> !deletions(existing, old_names, new_names).contains(existing[i].id@),
        forall|j: int|
            0 <= j < uploads(existing, new_names).len() ==> 0 <= #[trigger] uploads(
                existing,
                new_names,
            )[j] < new_names.len() && filename_index(
                existing,
                new_names[uploads(existing, new_names)[j]],
            ) < 0,
{
    let delete = deletions(existing, old_names, new_names);
    let upload = uploads(existing, new_names);
    let after = names_after(existing, delete, upload, new_names);
    // Uploads are positions of images that no attachment is named after.
    assert forall|j: int| 0 <= j < upload.len() implies 0 <= #[trigger] upload[j] < new_names.len()
        && filename_index(existing, new_names[upload[j]]) < 0 by {
        assert(upload.contains(upload[j]));
        lemma_uploads(existing, new_names, upload[j]);
    }
    // An attachment is deleted exactly when the current images do not name it
    // (and then the previous text does).
    assert forall|i: int| 0 <= i < existing.len() implies (delete.contains(
        #[trigger] existing[i].id@,
    ) <==> !new_names.contains(existing[i].filename@)) by {
        let id = existing[i].id@;
        lemma_deletions(existing, old_names, new_names, id);
        if delete.contains(id) {
            let k = choose|k: int|
                0 <= k < existing.len() && (#[trigger] existing[k]).id@ == id && is_stale(
                    existing[k],
                    old_names,
                    new_names,
                );
            assert(k == i);
        }
        if !new_names.contains(existing[i].filename@) {
            assert(is_stale(existing[i], old_names, new_names));
        }
    }
    assert forall|name: Seq<char>| after.contains(name) <==> new_names.contains(name) by {
        if after.contains(name) {
            if exists|i: int|
                0 <= i < existing.len() && #[trigger] existing[i].filename@ == name
                    && !delete.contains(existing[i].id@) {
            } else {
                let j = choose|j: int|
                    0 <= j < upload.len() && 0 <= upload[j] < new_names.len()
                        && #[trigger] new_names[upload[j]] == name;
                assert(new_names.contains(name));
            }
        }
        if new_names.contains(name) {
            let p = choose|p: int| 0 <= p < new_names.len() && new_names[p] == name;
            lemma_filename_index(existing, name);
            let at = filename_index(existing, name);
            if at >= 0 {
                assert(existing[at].filename@ == name);
                assert(!delete.contains(existing[at].id@));
            } else {
                lemma_uploads(existing, new_names, p);
                let j = choose|j: int| 0 <= j < upload.len() && upload[j] == p;
                assert(new_names[upload[j]] == name);
            }
        }
    }
}

} // verus!
