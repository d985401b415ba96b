//! The paths of each resource: every template names, as `{name}`
//! placeholders, exactly the IDs that its path requires. With
//! `lemma_build_path_fills`, the path planned for an operation is the
//! template with those placeholders replaced by the IDs' values.
use vstd::prelude::*;

use super::access_scope::AccessScope;
use super::application_charge::ApplicationCharge;
use super::article::Article;
use super::asset::Asset;
use super::blog::Blog;
use super::collect::Collect;
use super::comment::Comment;
use super::country::Country;
use super::currency::Currency;
use super::custom_collection::CustomCollection;
use super::discount_code::DiscountCode;
use super::draft_order::DraftOrder;
use super::event::Event;
use super::fulfillment::Fulfillment;
use super::fulfillment_order::FulfillmentOrder;
use super::fulfillment_service::FulfillmentService;
use super::gift_card::GiftCard;
use super::inventory_item::InventoryItem;
use super::inventory_level::InventoryLevel;
use crate::rest::template::{brace_free, ends_with_id, ids_end_with_id, names_exactly, render, slot_names, templates_name_ids};

verus! {

/// Every path of `AccessScope` names in its template exactly the IDs it requires, and a path that finds, updates or deletes one resource ends with its `id`.
pub proof fn lemma_access_scope_paths()
    ensures
        templates_name_ids(AccessScope::path_views()),
        ids_end_with_id(AccessScope::path_views()),
{
    assert(names_exactly("oauth/access_scopes"@, Seq::<Seq<char>>::empty())) by {
        reveal_strlit("oauth/access_scopes");
        let ps = seq![(false, "oauth/access_scopes"@)];
        reveal_with_fuel(render, 2);
        reveal_with_fuel(slot_names, 2);
        assert(brace_free(ps[0].1));
        assert(render(ps) =~= "oauth/access_scopes"@);
        assert(slot_names(ps) =~= Seq::<Seq<char>>::empty());
    }
    let v = AccessScope::path_views();
    assert forall|k: int| 0 <= k < v.len() implies names_exactly(#[trigger] v[k].3, v[k].2) by {
        if k == 0 {}
    }
    reveal_strlit("id");
    assert("id"@ =~= seq!['i', 'd']);
    assert forall|k: int| 0 <= k < v.len() implies ends_with_id(#[trigger] v[k]) by {
        if k == 0 {}
    }
}

/// Every path of `ApplicationCharge` names in its template exactly the IDs it requires, and a path that finds, updates or deletes one resource ends with its `id`.
pub proof fn lemma_application_charge_paths()
    ensures
        templates_name_ids(ApplicationCharge::path_views()),
        ids_end_with_id(ApplicationCharge::path_views()),
{
    assert(names_exactly("application_charges/{id}"@, seq!["id"@])) by {
        reveal_strlit("application_charges/");
        reveal_strlit("application_charges/{id}");
        reveal_strlit("id");
        let ps = seq![(false, "application_charges/"@), (true, "id"@)];
        reveal_with_fuel(render, 3);
        reveal_with_fuel(slot_names, 3);
        assert(brace_free(ps[0].1));
        assert(brace_free(ps[1].1));
        assert(render(ps) =~= "application_charges/{id}"@);
        assert(slot_names(ps) =~= seq!["id"@]);
    }
    assert(names_exactly("application_charges"@, Seq::<Seq<char>>::empty())) by {
        reveal_strlit("application_charges");
        let ps = seq![(false, "application_charges"@)];
        reveal_with_fuel(render, 2);
        reveal_with_fuel(slot_names, 2);
        assert(brace_free(ps[0].1));
        assert(render(ps) =~= "application_charges"@);
        assert(slot_names(ps) =~= Seq::<Seq<char>>::empty());
    }
    assert(names_exactly("application_charges"@, Seq::<Seq<char>>::empty())) by {
        reveal_strlit("application_charges");
        let ps = seq![(false, "application_charges"@)];
        reveal_with_fuel(render, 2);
        reveal_with_fuel(slot_names, 2);
        assert(brace_free(ps[0].1));
        assert(render(ps) =~= "application_charges"@);
        assert(slot_names(ps) =~= Seq::<Seq<char>>::empty());
    }
    let v = ApplicationCharge::path_views();
    assert forall|k: int| 0 <= k < v.len() implies names_exactly(#[trigger] v[k].3, v[k].2) by {
        if k == 0 {} else if k == 1 {} else if k == 2 {}
    }
    reveal_strlit("id");
    assert("id"@ =~= seq!['i', 'd']);
    assert forall|k: int| 0 <= k < v.len() implies ends_with_id(#[trigger] v[k]) by {
        if k == 0 {} else if k == 1 {} else if k == 2 {}
    }
}

/// Every path of `Article` names in its template exactly the IDs it requires, and a path that finds, updates or deletes one resource ends with its `id`.
pub proof fn lemma_article_paths()
    ensures
        templates_name_ids(Article::path_views()),
        ids_end_with_id(Article::path_views()),
{
    assert(names_exactly("blogs/{blog_id}/articles/{id}"@, seq!["blog_id"@, "id"@])) by {
        reveal_strlit("/articles/");
        reveal_strlit("blog_id");
        reveal_strlit("blogs/");
        reveal_strlit("blogs/{blog_id}/articles/{id}");
        reveal_strlit("id");
        let ps = seq![(false, "blogs/"@), (true, "blog_id"@), (false, "/articles/"@), (true, "id"@)];
        reveal_with_fuel(render, 5);
        reveal_with_fuel(slot_names, 5);
        assert(brace_free(ps[0].1));
        assert(brace_free(ps[1].1));
        assert(brace_free(ps[2].1));
        assert(brace_free(ps[3].1));
        assert(render(ps) =~= "blogs/{blog_id}/articles/{id}"@);
        assert(slot_names(ps) =~= seq!["blog_id"@, "id"@]);
    }
    assert(names_exactly("blogs/{blog_id}/articles"@, seq!["blog_id"@])) by {
        reveal_strlit("/articles");
        reveal_strlit("blog_id");
        reveal_strlit("blogs/");
        reveal_strlit("blogs/{blog_id}/articles");
        let ps = seq![(false, "blogs/"@), (true, "blog_id"@), (false, "/articles"@)];
        reveal_with_fuel(render, 4);
        reveal_with_fuel(slot_names, 4);
        assert(brace_free(ps[0].1));
        assert(brace_free(ps[1].1));
        assert(brace_free(ps[2].1));
        assert(render(ps) =~= "blogs/{blog_id}/articles"@);
        assert(slot_names(ps) =~= seq!["blog_id"@]);
    }
    assert(names_exactly("blogs/{blog_id}/articles/count"@, seq!["blog_id"@])) by {
        reveal_strlit("/articles/count");
        reveal_strlit("blog_id");
        reveal_strlit("blogs/");
        reveal_strlit("blogs/{blog_id}/articles/count");
        let ps = seq![(false, "blogs/"@), (true, "blog_id"@), (false, "/articles/count"@)];
        reveal_with_fuel(render, 4);
        reveal_with_fuel(slot_names, 4);
        assert(brace_free(ps[0].1));
        assert(brace_free(ps[1].1));
        assert(brace_free(ps[2].1));
        assert(render(ps) =~= "blogs/{blog_id}/articles/count"@);
        assert(slot_names(ps) =~= seq!["blog_id"@]);
    }
    assert(names_exactly("blogs/{blog_id}/articles"@, seq!["blog_id"@])) by {
        reveal_strlit("/articles");
        reveal_strlit("blog_id");
        reveal_strlit("blogs/");
        reveal_strlit("blogs/{blog_id}/articles");
        let ps = seq![(false, "blogs/"@), (true, "blog_id"@), (false, "/articles"@)];
        reveal_with_fuel(render, 4);
        reveal_with_fuel(slot_names, 4);
        assert(brace_free(ps[0].1));
        assert(brace_free(ps[1].1));
        assert(brace_free(ps[2].1));
        assert(render(ps) =~= "blogs/{blog_id}/articles"@);
        assert(slot_names(ps) =~= seq!["blog_id"@]);
    }
    assert(names_exactly("blogs/{blog_id}/articles/{id}"@, seq!["blog_id"@, "id"@])) by {
        reveal_strlit("/articles/");
        reveal_strlit("blog_id");
        reveal_strlit("blogs/");
        reveal_strlit("blogs/{blog_id}/articles/{id}");
        reveal_strlit("id");
        let ps = seq![(false, "blogs/"@), (true, "blog_id"@), (false, "/articles/"@), (true, "id"@)];
        reveal_with_fuel(render, 5);
        reveal_with_fuel(slot_names, 5);
        assert(brace_free(ps[0].1));
        assert(brace_free(ps[1].1));
        assert(brace_free(ps[2].1));
        assert(brace_free(ps[3].1));
        assert(render(ps) =~= "blogs/{blog_id}/articles/{id}"@);
        assert(slot_names(ps) =~= seq!["blog_id"@, "id"@]);
    }
    assert(names_exactly("blogs/{blog_id}/articles/{id}"@, seq!["blog_id"@, "id"@])) by {
        reveal_strlit("/articles/");
        reveal_strlit("blog_id");
        reveal_strlit("blogs/");
        reveal_strlit("blogs/{blog_id}/articles/{id}");
        reveal_strlit("id");
        let ps = seq![(false, "blogs/"@), (true, "blog_id"@), (false, "/articles/"@), (true, "id"@)];
        reveal_with_fuel(render, 5);
        reveal_with_fuel(slot_names, 5);
        assert(brace_free(ps[0].1));
        assert(brace_free(ps[1].1));
        assert(brace_free(ps[2].1));
        assert(brace_free(ps[3].1));
        assert(render(ps) =~= "blogs/{blog_id}/articles/{id}"@);
        assert(slot_names(ps) =~= seq!["blog_id"@, "id"@]);
    }
    let v = Article::path_views();
    assert forall|k: int| 0 <= k < v.len() implies names_exactly(#[trigger] v[k].3, v[k].2) by {
        if k == 0 {} else if k == 1 {} else if k == 2 {} else if k == 3 {} else if k == 4 {} else if k == 5 {}
    }
    reveal_strlit("id");
    assert("id"@ =~= seq!['i', 'd']);
    assert forall|k: int| 0 <= k < v.len() implies ends_with_id(#[trigger] v[k]) by {
        if k == 0 {} else if k == 1 {} else if k == 2 {} else if k == 3 {} else if k == 4 {} else if k == 5 {}
    }
}

/// Every path of `Asset` names in its template exactly the IDs it requires.
pub proof fn lemma_asset_paths()
    ensures
        templates_name_ids(Asset::path_views()),
{
    assert(names_exactly("themes/{theme_id}/assets"@, seq!["theme_id"@])) by {
        reveal_strlit("/assets");
        reveal_strlit("theme_id");
        reveal_strlit("themes/");
        reveal_strlit("themes/{theme_id}/assets");
        let ps = seq![(false, "themes/"@), (true, "theme_id"@), (false, "/assets"@)];
        reveal_with_fuel(render, 4);
        reveal_with_fuel(slot_names, 4);
        assert(brace_free(ps[0].1));
        assert(brace_free(ps[1].1));
        assert(brace_free(ps[2].1));
        assert(render(ps) =~= "themes/{theme_id}/assets"@);
        assert(slot_names(ps) =~= seq!["theme_id"@]);
    }
    assert(names_exactly("themes/{theme_id}/assets"@, seq!["theme_id"@])) by {
        reveal_strlit("/assets");
        reveal_strlit("theme_id");
        reveal_strlit("themes/");
        reveal_strlit("themes/{theme_id}/assets");
        let ps = seq![(false, "themes/"@), (true, "theme_id"@), (false, "/assets"@)];
        reveal_with_fuel(render, 4);
        reveal_with_fuel(slot_names, 4);
        assert(brace_free(ps[0].1));
        assert(brace_free(ps[1].1));
        assert(brace_free(ps[2].1));
        assert(render(ps) =~= "themes/{theme_id}/assets"@);
        assert(slot_names(ps) =~= seq!["theme_id"@]);
    }
    assert(names_exactly("themes/{theme_id}/assets"@, seq!["theme_id"@])) by {
        reveal_strlit("/assets");
        reveal_strlit("theme_id");
        reveal_strlit("themes/");
        reveal_strlit("themes/{theme_id}/assets");
        let ps = seq![(false, "themes/"@), (true, "theme_id"@), (false, "/assets"@)];
        reveal_with_fuel(render, 4);
        reveal_with_fuel(slot_names, 4);
        assert(brace_free(ps[0].1));
        assert(brace_free(ps[1].1));
        assert(brace_free(ps[2].1));
        assert(render(ps) =~= "themes/{theme_id}/assets"@);
        assert(slot_names(ps) =~= seq!["theme_id"@]);
    }
    assert(names_exactly("themes/{theme_id}/assets"@, seq!["theme_id"@])) by {
        reveal_strlit("/assets");
        reveal_strlit("theme_id");
        reveal_strlit("themes/");
        reveal_strlit("themes/{theme_id}/assets");
        let ps = seq![(false, "themes/"@), (true, "theme_id"@), (false, "/assets"@)];
        reveal_with_fuel(render, 4);
        reveal_with_fuel(slot_names, 4);
        assert(brace_free(ps[0].1));
        assert(brace_free(ps[1].1));
        assert(brace_free(ps[2].1));
        assert(render(ps) =~= "themes/{theme_id}/assets"@);
        assert(slot_names(ps) =~= seq!["theme_id"@]);
    }
    assert(names_exactly("themes/{theme_id}/assets"@, seq!["theme_id"@])) by {
        reveal_strlit("/assets");
        reveal_strlit("theme_id");
        reveal_strlit("themes/");
        reveal_strlit("themes/{theme_id}/assets");
        let ps = seq![(false, "themes/"@), (true, "theme_id"@), (false, "/assets"@)];
        reveal_with_fuel(render, 4);
        reveal_with_fuel(slot_names, 4);
        assert(brace_free(ps[0].1));
        assert(brace_free(ps[1].1));
        assert(brace_free(ps[2].1));
        assert(render(ps) =~= "themes/{theme_id}/assets"@);
        assert(slot_names(ps) =~= seq!["theme_id"@]);
    }
    let v = Asset::path_views();
    assert forall|k: int| 0 <= k < v.len() implies names_exactly(#[trigger] v[k].3, v[k].2) by {
        if k == 0 {} else if k == 1 {} else if k == 2 {} else if k == 3 {} else if k == 4 {}
    }
}

/// Every path of `Blog` names in its template exactly the IDs it requires, and a path that finds, updates or deletes one resource ends with its `id`.
pub proof fn lemma_blog_paths()
    ensures
        templates_name_ids(Blog::path_views()),
        ids_end_with_id(Blog::path_views()),
{
    assert(names_exactly("blogs/{id}"@, seq!["id"@])) by {
        reveal_strlit("blogs/");
        reveal_strlit("blogs/{id}");
        reveal_strlit("id");
        let ps = seq![(false, "blogs/"@), (true, "id"@)];
        reveal_with_fuel(render, 3);
        reveal_with_fuel(slot_names, 3);
        assert(brace_free(ps[0].1));
        assert(brace_free(ps[1].1));
        assert(render(ps) =~= "blogs/{id}"@);
        assert(slot_names(ps) =~= seq!["id"@]);
    }
    assert(names_exactly("blogs"@, Seq::<Seq<char>>::empty())) by {
        reveal_strlit("blogs");
        let ps = seq![(false, "blogs"@)];
        reveal_with_fuel(render, 2);
        reveal_with_fuel(slot_names, 2);
        assert(brace_free(ps[0].1));
        assert(render(ps) =~= "blogs"@);
        assert(slot_names(ps) =~= Seq::<Seq<char>>::empty());
    }
    assert(names_exactly("blogs/count"@, Seq::<Seq<char>>::empty())) by {
        reveal_strlit("blogs/count");
        let ps = seq![(false, "blogs/count"@)];
        reveal_with_fuel(render, 2);
        reveal_with_fuel(slot_names, 2);
        assert(brace_free(ps[0].1));
        assert(render(ps) =~= "blogs/count"@);
        assert(slot_names(ps) =~= Seq::<Seq<char>>::empty());
    }
    assert(names_exactly("blogs"@, Seq::<Seq<char>>::empty())) by {
        reveal_strlit("blogs");
        let ps = seq![(false, "blogs"@)];
        reveal_with_fuel(render, 2);
        reveal_with_fuel(slot_names, 2);
        assert(brace_free(ps[0].1));
        assert(render(ps) =~= "blogs"@);
        assert(slot_names(ps) =~= Seq::<Seq<char>>::empty());
    }
    assert(names_exactly("blogs/{id}"@, seq!["id"@])) by {
        reveal_strlit("blogs/");
        reveal_strlit("blogs/{id}");
        reveal_strlit("id");
        let ps = seq![(false, "blogs/"@), (true, "id"@)];
        reveal_with_fuel(render, 3);
        reveal_with_fuel(slot_names, 3);
        assert(brace_free(ps[0].1));
        assert(brace_free(ps[1].1));
        assert(render(ps) =~= "blogs/{id}"@);
        assert(slot_names(ps) =~= seq!["id"@]);
    }
    assert(names_exactly("blogs/{id}"@, seq!["id"@])) by {
        reveal_strlit("blogs/");
        reveal_strlit("blogs/{id}");
        reveal_strlit("id");
        let ps = seq![(false, "blogs/"@), (true, "id"@)];
        reveal_with_fuel(render, 3);
        reveal_with_fuel(slot_names, 3);
        assert(brace_free(ps[0].1));
        assert(brace_free(ps[1].1));
        assert(render(ps) =~= "blogs/{id}"@);
        assert(slot_names(ps) =~= seq!["id"@]);
    }
    let v = Blog::path_views();
    assert forall|k: int| 0 <= k < v.len() implies names_exactly(#[trigger] v[k].3, v[k].2) by {
        if k == 0 {} else if k == 1 {} else if k == 2 {} else if k == 3 {} else if k == 4 {} else if k == 5 {}
    }
    reveal_strlit("id");
    assert("id"@ =~= seq!['i', 'd']);
    assert forall|k: int| 0 <= k < v.len() implies ends_with_id(#[trigger] v[k]) by {
        if k == 0 {} else if k == 1 {} else if k == 2 {} else if k == 3 {} else if k == 4 {} else if k == 5 {}
    }
}

/// Every path of `Collect` names in its template exactly the IDs it requires, and a path that finds, updates or deletes one resource ends with its `id`.
pub proof fn lemma_collect_paths()
    ensures
        templates_name_ids(Collect::path_views()),
        ids_end_with_id(Collect::path_views()),
{
    assert(names_exactly("collects/{id}"@, seq!["id"@])) by {
        reveal_strlit("collects/");
        reveal_strlit("collects/{id}");
        reveal_strlit("id");
        let ps = seq![(false, "collects/"@), (true, "id"@)];
        reveal_with_fuel(render, 3);
        reveal_with_fuel(slot_names, 3);
        assert(brace_free(ps[0].1));
        assert(brace_free(ps[1].1));
        assert(render(ps) =~= "collects/{id}"@);
        assert(slot_names(ps) =~= seq!["id"@]);
    }
    assert(names_exactly("collects"@, Seq::<Seq<char>>::empty())) by {
        reveal_strlit("collects");
        let ps = seq![(false, "collects"@)];
        reveal_with_fuel(render, 2);
        reveal_with_fuel(slot_names, 2);
        assert(brace_free(ps[0].1));
        assert(render(ps) =~= "collects"@);
        assert(slot_names(ps) =~= Seq::<Seq<char>>::empty());
    }
    assert(names_exactly("collects/count"@, Seq::<Seq<char>>::empty())) by {
        reveal_strlit("collects/count");
        let ps = seq![(false, "collects/count"@)];
        reveal_with_fuel(render, 2);
        reveal_with_fuel(slot_names, 2);
        assert(brace_free(ps[0].1));
        assert(render(ps) =~= "collects/count"@);
        assert(slot_names(ps) =~= Seq::<Seq<char>>::empty());
    }
    assert(names_exactly("collects"@, Seq::<Seq<char>>::empty())) by {
        reveal_strlit("collects");
        let ps = seq![(false, "collects"@)];
        reveal_with_fuel(render, 2);
        reveal_with_fuel(slot_names, 2);
        assert(brace_free(ps[0].1));
        assert(render(ps) =~= "collects"@);
        assert(slot_names(ps) =~= Seq::<Seq<char>>::empty());
    }
    assert(names_exactly("collects/{id}"@, seq!["id"@])) by {
        reveal_strlit("collects/");
        reveal_strlit("collects/{id}");
        reveal_strlit("id");
        let ps = seq![(false, "collects/"@), (true, "id"@)];
        reveal_with_fuel(render, 3);
        reveal_with_fuel(slot_names, 3);
        assert(brace_free(ps[0].1));
        assert(brace_free(ps[1].1));
        assert(render(ps) =~= "collects/{id}"@);
        assert(slot_names(ps) =~= seq!["id"@]);
    }
    let v = Collect::path_views();
    assert forall|k: int| 0 <= k < v.len() implies names_exactly(#[trigger] v[k].3, v[k].2) by {
        if k == 0 {} else if k == 1 {} else if k == 2 {} else if k == 3 {} else if k == 4 {}
    }
    reveal_strlit("id");
    assert("id"@ =~= seq!['i', 'd']);
    assert forall|k: int| 0 <= k < v.len() implies ends_with_id(#[trigger] v[k]) by {
        if k == 0 {} else if k == 1 {} else if k == 2 {} else if k == 3 {} else if k == 4 {}
    }
}

/// Every path of `Comment` names in its template exactly the IDs it requires, and a path that finds, updates or deletes one resource ends with its `id`.
pub proof fn lemma_comment_paths()
    ensures
        templates_name_ids(Comment::path_views()),
        ids_end_with_id(Comment::path_views()),
{
    assert(names_exactly("comments/{id}"@, seq!["id"@])) by {
        reveal_strlit("comments/");
        reveal_strlit("comments/{id}");
        reveal_strlit("id");
        let ps = seq![(false, "comments/"@), (true, "id"@)];
        reveal_with_fuel(render, 3);
        reveal_with_fuel(slot_names, 3);
        assert(brace_free(ps[0].1));
        assert(brace_free(ps[1].1));
        assert(render(ps) =~= "comments/{id}"@);
        assert(slot_names(ps) =~= seq!["id"@]);
    }
    assert(names_exactly("comments"@, Seq::<Seq<char>>::empty())) by {
        reveal_strlit("comments");
        let ps = seq![(false, "comments"@)];
        reveal_with_fuel(render, 2);
        reveal_with_fuel(slot_names, 2);
        assert(brace_free(ps[0].1));
        assert(render(ps) =~= "comments"@);
        assert(slot_names(ps) =~= Seq::<Seq<char>>::empty());
    }
    assert(names_exactly("comments/count"@, Seq::<Seq<char>>::empty())) by {
        reveal_strlit("comments/count");
        let ps = seq![(false, "comments/count"@)];
        reveal_with_fuel(render, 2);
        reveal_with_fuel(slot_names, 2);
        assert(brace_free(ps[0].1));
        assert(render(ps) =~= "comments/count"@);
        assert(slot_names(ps) =~= Seq::<Seq<char>>::empty());
    }
    assert(names_exactly("comments"@, Seq::<Seq<char>>::empty())) by {
        reveal_strlit("comments");
        let ps = seq![(false, "comments"@)];
        reveal_with_fuel(render, 2);
        reveal_with_fuel(slot_names, 2);
        assert(brace_free(ps[0].1));
        assert(render(ps) =~= "comments"@);
        assert(slot_names(ps) =~= Seq::<Seq<char>>::empty());
    }
    assert(names_exactly("comments/{id}"@, seq!["id"@])) by {
        reveal_strlit("comments/");
        reveal_strlit("comments/{id}");
        reveal_strlit("id");
        let ps = seq![(false, "comments/"@), (true, "id"@)];
        reveal_with_fuel(render, 3);
        reveal_with_fuel(slot_names, 3);
        assert(brace_free(ps[0].1));
        assert(brace_free(ps[1].1));
        assert(render(ps) =~= "comments/{id}"@);
        assert(slot_names(ps) =~= seq!["id"@]);
    }
    assert(names_exactly("comments/{id}"@, seq!["id"@])) by {
        reveal_strlit("comments/");
        reveal_strlit("comments/{id}");
        reveal_strlit("id");
        let ps = seq![(false, "comments/"@), (true, "id"@)];
        reveal_with_fuel(render, 3);
        reveal_with_fuel(slot_names, 3);
        assert(brace_free(ps[0].1));
        assert(brace_free(ps[1].1));
        assert(render(ps) =~= "comments/{id}"@);
        assert(slot_names(ps) =~= seq!["id"@]);
    }
    assert(names_exactly("articles/{article_id}/comments"@, seq!["article_id"@])) by {
        reveal_strlit("/comments");
        reveal_strlit("article_id");
        reveal_strlit("articles/");
        reveal_strlit("articles/{article_id}/comments");
        let ps = seq![(false, "articles/"@), (true, "article_id"@), (false, "/comments"@)];
        reveal_with_fuel(render, 4);
        reveal_with_fuel(slot_names, 4);
        assert(brace_free(ps[0].1));
        assert(brace_free(ps[1].1));
        assert(brace_free(ps[2].1));
        assert(render(ps) =~= "articles/{article_id}/comments"@);
        assert(slot_names(ps) =~= seq!["article_id"@]);
    }
    assert(names_exactly("articles/{article_id}/comments/count"@, seq!["article_id"@])) by {
        reveal_strlit("/comments/count");
        reveal_strlit("article_id");
        reveal_strlit("articles/");
        reveal_strlit("articles/{article_id}/comments/count");
        let ps = seq![(false, "articles/"@), (true, "article_id"@), (false, "/comments/count"@)];
        reveal_with_fuel(render, 4);
        reveal_with_fuel(slot_names, 4);
        assert(brace_free(ps[0].1));
        assert(brace_free(ps[1].1));
        assert(brace_free(ps[2].1));
        assert(render(ps) =~= "articles/{article_id}/comments/count"@);
        assert(slot_names(ps) =~= seq!["article_id"@]);
    }
    let v = Comment::path_views();
    assert forall|k: int| 0 <= k < v.len() implies names_exactly(#[trigger] v[k].3, v[k].2) by {
        if k == 0 {} else if k == 1 {} else if k == 2 {} else if k == 3 {} else if k == 4 {} else if k == 5 {} else if k == 6 {} else if k == 7 {}
    }
    reveal_strlit("id");
    assert("id"@ =~= seq!['i', 'd']);
    assert forall|k: int| 0 <= k < v.len() implies ends_with_id(#[trigger] v[k]) by {
        if k == 0 {} else if k == 1 {} else if k == 2 {} else if k == 3 {} else if k == 4 {} else if k == 5 {} else if k == 6 {} else if k == 7 {}
    }
}

/// Every path of `Country` names in its template exactly the IDs it requires, and a path that finds, updates or deletes one resource ends with its `id`.
pub proof fn lemma_country_paths()
    ensures
        templates_name_ids(Country::path_views()),
        ids_end_with_id(Country::path_views()),
{
    assert(names_exactly("countries/{id}"@, seq!["id"@])) by {
        reveal_strlit("countries/");
        reveal_strlit("countries/{id}");
        reveal_strlit("id");
        let ps = seq![(false, "countries/"@), (true, "id"@)];
        reveal_with_fuel(render, 3);
        reveal_with_fuel(slot_names, 3);
        assert(brace_free(ps[0].1));
        assert(brace_free(ps[1].1));
        assert(render(ps) =~= "countries/{id}"@);
        assert(slot_names(ps) =~= seq!["id"@]);
    }
    assert(names_exactly("countries"@, Seq::<Seq<char>>::empty())) by {
        reveal_strlit("countries");
        let ps = seq![(false, "countries"@)];
        reveal_with_fuel(render, 2);
        reveal_with_fuel(slot_names, 2);
        assert(brace_free(ps[0].1));
        assert(render(ps) =~= "countries"@);
        assert(slot_names(ps) =~= Seq::<Seq<char>>::empty());
    }
    assert(names_exactly("countries/count"@, Seq::<Seq<char>>::empty())) by {
        reveal_strlit("countries/count");
        let ps = seq![(false, "countries/count"@)];
        reveal_with_fuel(render, 2);
        reveal_with_fuel(slot_names, 2);
        assert(brace_free(ps[0].1));
        assert(render(ps) =~= "countries/count"@);
        assert(slot_names(ps) =~= Seq::<Seq<char>>::empty());
    }
    assert(names_exactly("countries"@, Seq::<Seq<char>>::empty())) by {
        reveal_strlit("countries");
        let ps = seq![(false, "countries"@)];
        reveal_with_fuel(render, 2);
        reveal_with_fuel(slot_names, 2);
        assert(brace_free(ps[0].1));
        assert(render(ps) =~= "countries"@);
        assert(slot_names(ps) =~= Seq::<Seq<char>>::empty());
    }
    assert(names_exactly("countries/{id}"@, seq!["id"@])) by {
        reveal_strlit("countries/");
        reveal_strlit("countries/{id}");
        reveal_strlit("id");
        let ps = seq![(false, "countries/"@), (true, "id"@)];
        reveal_with_fuel(render, 3);
        reveal_with_fuel(slot_names, 3);
        assert(brace_free(ps[0].1));
        assert(brace_free(ps[1].1));
        assert(render(ps) =~= "countries/{id}"@);
        assert(slot_names(ps) =~= seq!["id"@]);
    }
    assert(names_exactly("countries/{id}"@, seq!["id"@])) by {
        reveal_strlit("countries/");
        reveal_strlit("countries/{id}");
        reveal_strlit("id");
        let ps = seq![(false, "countries/"@), (true, "id"@)];
        reveal_with_fuel(render, 3);
        reveal_with_fuel(slot_names, 3);
        assert(brace_free(ps[0].1));
        assert(brace_free(ps[1].1));
        assert(render(ps) =~= "countries/{id}"@);
        assert(slot_names(ps) =~= seq!["id"@]);
    }
    let v = Country::path_views();
    assert forall|k: int| 0 <= k < v.len() implies names_exactly(#[trigger] v[k].3, v[k].2) by {
        if k == 0 {} else if k == 1 {} else if k == 2 {} else if k == 3 {} else if k == 4 {} else if k == 5 {}
    }
    reveal_strlit("id");
    assert("id"@ =~= seq!['i', 'd']);
    assert forall|k: int| 0 <= k < v.len() implies ends_with_id(#[trigger] v[k]) by {
        if k == 0 {} else if k == 1 {} else if k == 2 {} else if k == 3 {} else if k == 4 {} else if k == 5 {}
    }
}

/// Every path of `Currency` names in its template exactly the IDs it requires, and a path that finds, updates or deletes one resource ends with its `id`.
pub proof fn lemma_currency_paths()
    ensures
        templates_name_ids(Currency::path_views()),
        ids_end_with_id(Currency::path_views()),
{
    assert(names_exactly("currencies"@, Seq::<Seq<char>>::empty())) by {
        reveal_strlit("currencies");
        let ps = seq![(false, "currencies"@)];
        reveal_with_fuel(render, 2);
        reveal_with_fuel(slot_names, 2);
        assert(brace_free(ps[0].1));
        assert(render(ps) =~= "currencies"@);
        assert(slot_names(ps) =~= Seq::<Seq<char>>::empty());
    }
    let v = Currency::path_views();
    assert forall|k: int| 0 <= k < v.len() implies names_exactly(#[trigger] v[k].3, v[k].2) by {
        if k == 0 {}
    }
    reveal_strlit("id");
    assert("id"@ =~= seq!['i', 'd']);
    assert forall|k: int| 0 <= k < v.len() implies ends_with_id(#[trigger] v[k]) by {
        if k == 0 {}
    }
}

/// Every path of `CustomCollection` names in its template exactly the IDs it requires, and a path that finds, updates or deletes one resource ends with its `id`.
pub proof fn lemma_custom_collection_paths()
    ensures
        templates_name_ids(CustomCollection::path_views()),
        ids_end_with_id(CustomCollection::path_views()),
{
    assert(names_exactly("custom_collections/{id}"@, seq!["id"@])) by {
        reveal_strlit("custom_collections/");
        reveal_strlit("custom_collections/{id}");
        reveal_strlit("id");
        let ps = seq![(false, "custom_collections/"@), (true, "id"@)];
        reveal_with_fuel(render, 3);
        reveal_with_fuel(slot_names, 3);
        assert(brace_free(ps[0].1));
        assert(brace_free(ps[1].1));
        assert(render(ps) =~= "custom_collections/{id}"@);
        assert(slot_names(ps) =~= seq!["id"@]);
    }
    assert(names_exactly("custom_collections"@, Seq::<Seq<char>>::empty())) by {
        reveal_strlit("custom_collections");
        let ps = seq![(false, "custom_collections"@)];
        reveal_with_fuel(render, 2);
        reveal_with_fuel(slot_names, 2);
        assert(brace_free(ps[0].1));
        assert(render(ps) =~= "custom_collections"@);
        assert(slot_names(ps) =~= Seq::<Seq<char>>::empty());
    }
    assert(names_exactly("custom_collections/count"@, Seq::<Seq<char>>::empty())) by {
        reveal_strlit("custom_collections/count");
        let ps = seq![(false, "custom_collections/count"@)];
        reveal_with_fuel(render, 2);
        reveal_with_fuel(slot_names, 2);
        assert(brace_free(ps[0].1));
        assert(render(ps) =~= "custom_collections/count"@);
        assert(slot_names(ps) =~= Seq::<Seq<char>>::empty());
    }
    assert(names_exactly("custom_collections"@, Seq::<Seq<char>>::empty())) by {
        reveal_strlit("custom_collections");
        let ps = seq![(false, "custom_collections"@)];
        reveal_with_fuel(render, 2);
        reveal_with_fuel(slot_names, 2);
        assert(brace_free(ps[0].1));
        assert(render(ps) =~= "custom_collections"@);
        assert(slot_names(ps) =~= Seq::<Seq<char>>::empty());
    }
    assert(names_exactly("custom_collections/{id}"@, seq!["id"@])) by {
        reveal_strlit("custom_collections/");
        reveal_strlit("custom_collections/{id}");
        reveal_strlit("id");
        let ps = seq![(false, "custom_collections/"@), (true, "id"@)];
        reveal_with_fuel(render, 3);
        reveal_with_fuel(slot_names, 3);
        assert(brace_free(ps[0].1));
        assert(brace_free(ps[1].1));
        assert(render(ps) =~= "custom_collections/{id}"@);
        assert(slot_names(ps) =~= seq!["id"@]);
    }
    assert(names_exactly("custom_collections/{id}"@, seq!["id"@])) by {
        reveal_strlit("custom_collections/");
        reveal_strlit("custom_collections/{id}");
        reveal_strlit("id");
        let ps = seq![(false, "custom_collections/"@), (true, "id"@)];
        reveal_with_fuel(render, 3);
        reveal_with_fuel(slot_names, 3);
        assert(brace_free(ps[0].1));
        assert(brace_free(ps[1].1));
        assert(render(ps) =~= "custom_collections/{id}"@);
        assert(slot_names(ps) =~= seq!["id"@]);
    }
    let v = CustomCollection::path_views();
    assert forall|k: int| 0 <= k < v.len() implies names_exactly(#[trigger] v[k].3, v[k].2) by {
        if k == 0 {} else if k == 1 {} else if k == 2 {} else if k == 3 {} else if k == 4 {} else if k == 5 {}
    }
    reveal_strlit("id");
    assert("id"@ =~= seq!['i', 'd']);
    assert forall|k: int| 0 <= k < v.len() implies ends_with_id(#[trigger] v[k]) by {
        if k == 0 {} else if k == 1 {} else if k == 2 {} else if k == 3 {} else if k == 4 {} else if k == 5 {}
    }
}

/// Every path of `DiscountCode` names in its template exactly the IDs it requires, and a path that finds, updates or deletes one resource ends with its `id`.
pub proof fn lemma_discount_code_paths()
    ensures
        templates_name_ids(DiscountCode::path_views()),
        ids_end_with_id(DiscountCode::path_views()),
{
    assert(names_exactly("price_rules/{price_rule_id}/discount_codes/{id}"@, seq!["price_rule_id"@, "id"@])) by {
        reveal_strlit("/discount_codes/");
        reveal_strlit("id");
        reveal_strlit("price_rule_id");
        reveal_strlit("price_rules/");
        reveal_strlit("price_rules/{price_rule_id}/discount_codes/{id}");
        let ps = seq![(false, "price_rules/"@), (true, "price_rule_id"@), (false, "/discount_codes/"@), (true, "id"@)];
        reveal_with_fuel(render, 5);
        reveal_with_fuel(slot_names, 5);
        assert(brace_free(ps[0].1));
        assert(brace_free(ps[1].1));
        assert(brace_free(ps[2].1));
        assert(brace_free(ps[3].1));
        assert(render(ps) =~= "price_rules/{price_rule_id}/discount_codes/{id}"@);
        assert(slot_names(ps) =~= seq!["price_rule_id"@, "id"@]);
    }
    assert(names_exactly("price_rules/{price_rule_id}/discount_codes"@, seq!["price_rule_id"@])) by {
        reveal_strlit("/discount_codes");
        reveal_strlit("price_rule_id");
        reveal_strlit("price_rules/");
        reveal_strlit("price_rules/{price_rule_id}/discount_codes");
        let ps = seq![(false, "price_rules/"@), (true, "price_rule_id"@), (false, "/discount_codes"@)];
        reveal_with_fuel(render, 4);
        reveal_with_fuel(slot_names, 4);
        assert(brace_free(ps[0].1));
        assert(brace_free(ps[1].1));
        assert(brace_free(ps[2].1));
        assert(render(ps) =~= "price_rules/{price_rule_id}/discount_codes"@);
        assert(slot_names(ps) =~= seq!["price_rule_id"@]);
    }
    assert(names_exactly("price_rules/{price_rule_id}/discount_codes/count"@, seq!["price_rule_id"@])) by {
        reveal_strlit("/discount_codes/count");
        reveal_strlit("price_rule_id");
        reveal_strlit("price_rules/");
        reveal_strlit("price_rules/{price_rule_id}/discount_codes/count");
        let ps = seq![(false, "price_rules/"@), (true, "price_rule_id"@), (false, "/discount_codes/count"@)];
        reveal_with_fuel(render, 4);
        reveal_with_fuel(slot_names, 4);
        assert(brace_free(ps[0].1));
        assert(brace_free(ps[1].1));
        assert(brace_free(ps[2].1));
        assert(render(ps) =~= "price_rules/{price_rule_id}/discount_codes/count"@);
        assert(slot_names(ps) =~= seq!["price_rule_id"@]);
    }
    assert(names_exactly("price_rules/{price_rule_id}/discount_codes"@, seq!["price_rule_id"@])) by {
        reveal_strlit("/discount_codes");
        reveal_strlit("price_rule_id");
        reveal_strlit("price_rules/");
        reveal_strlit("price_rules/{price_rule_id}/discount_codes");
        let ps = seq![(false, "price_rules/"@), (true, "price_rule_id"@), (false, "/discount_codes"@)];
        reveal_with_fuel(render, 4);
        reveal_with_fuel(slot_names, 4);
        assert(brace_free(ps[0].1));
        assert(brace_free(ps[1].1));
        assert(brace_free(ps[2].1));
        assert(render(ps) =~= "price_rules/{price_rule_id}/discount_codes"@);
        assert(slot_names(ps) =~= seq!["price_rule_id"@]);
    }
    assert(names_exactly("price_rules/{price_rule_id}/discount_codes/{id}"@, seq!["price_rule_id"@, "id"@])) by {
        reveal_strlit("/discount_codes/");
        reveal_strlit("id");
        reveal_strlit("price_rule_id");
        reveal_strlit("price_rules/");
        reveal_strlit("price_rules/{price_rule_id}/discount_codes/{id}");
        let ps = seq![(false, "price_rules/"@), (true, "price_rule_id"@), (false, "/discount_codes/"@), (true, "id"@)];
        reveal_with_fuel(render, 5);
        reveal_with_fuel(slot_names, 5);
        assert(brace_free(ps[0].1));
        assert(brace_free(ps[1].1));
        assert(brace_free(ps[2].1));
        assert(brace_free(ps[3].1));
        assert(render(ps) =~= "price_rules/{price_rule_id}/discount_codes/{id}"@);
        assert(slot_names(ps) =~= seq!["price_rule_id"@, "id"@]);
    }
    assert(names_exactly("price_rules/{price_rule_id}/discount_codes/{id}"@, seq!["price_rule_id"@, "id"@])) by {
        reveal_strlit("/discount_codes/");
        reveal_strlit("id");
        reveal_strlit("price_rule_id");
        reveal_strlit("price_rules/");
        reveal_strlit("price_rules/{price_rule_id}/discount_codes/{id}");
        let ps = seq![(false, "price_rules/"@), (true, "price_rule_id"@), (false, "/discount_codes/"@), (true, "id"@)];
        reveal_with_fuel(render, 5);
        reveal_with_fuel(slot_names, 5);
        assert(brace_free(ps[0].1));
        assert(brace_free(ps[1].1));
        assert(brace_free(ps[2].1));
        assert(brace_free(ps[3].1));
        assert(render(ps) =~= "price_rules/{price_rule_id}/discount_codes/{id}"@);
        assert(slot_names(ps) =~= seq!["price_rule_id"@, "id"@]);
    }
    let v = DiscountCode::path_views();
    assert forall|k: int| 0 <= k < v.len() implies names_exactly(#[trigger] v[k].3, v[k].2) by {
        if k == 0 {} else if k == 1 {} else if k == 2 {} else if k == 3 {} else if k == 4 {} else if k == 5 {}
    }
    reveal_strlit("id");
    assert("id"@ =~= seq!['i', 'd']);
    assert forall|k: int| 0 <= k < v.len() implies ends_with_id(#[trigger] v[k]) by {
        if k == 0 {} else if k == 1 {} else if k == 2 {} else if k == 3 {} else if k == 4 {} else if k == 5 {}
    }
}

/// Every path of `DraftOrder` names in its template exactly the IDs it requires, and a path that finds, updates or deletes one resource ends with its `id`.
pub proof fn lemma_draft_order_paths()
    ensures
        templates_name_ids(DraftOrder::path_views()),
        ids_end_with_id(DraftOrder::path_views()),
{
    assert(names_exactly("draft_orders/{id}"@, seq!["id"@])) by {
        reveal_strlit("draft_orders/");
        reveal_strlit("draft_orders/{id}");
        reveal_strlit("id");
        let ps = seq![(false, "draft_orders/"@), (true, "id"@)];
        reveal_with_fuel(render, 3);
        reveal_with_fuel(slot_names, 3);
        assert(brace_free(ps[0].1));
        assert(brace_free(ps[1].1));
        assert(render(ps) =~= "draft_orders/{id}"@);
        assert(slot_names(ps) =~= seq!["id"@]);
    }
    assert(names_exactly("draft_orders"@, Seq::<Seq<char>>::empty())) by {
        reveal_strlit("draft_orders");
        let ps = seq![(false, "draft_orders"@)];
        reveal_with_fuel(render, 2);
        reveal_with_fuel(slot_names, 2);
        assert(brace_free(ps[0].1));
        assert(render(ps) =~= "draft_orders"@);
        assert(slot_names(ps) =~= Seq::<Seq<char>>::empty());
    }
    assert(names_exactly("draft_orders/count"@, Seq::<Seq<char>>::empty())) by {
        reveal_strlit("draft_orders/count");
        let ps = seq![(false, "draft_orders/count"@)];
        reveal_with_fuel(render, 2);
        reveal_with_fuel(slot_names, 2);
        assert(brace_free(ps[0].1));
        assert(render(ps) =~= "draft_orders/count"@);
        assert(slot_names(ps) =~= Seq::<Seq<char>>::empty());
    }
    assert(names_exactly("draft_orders"@, Seq::<Seq<char>>::empty())) by {
        reveal_strlit("draft_orders");
        let ps = seq![(false, "draft_orders"@)];
        reveal_with_fuel(render, 2);
        reveal_with_fuel(slot_names, 2);
        assert(brace_free(ps[0].1));
        assert(render(ps) =~= "draft_orders"@);
        assert(slot_names(ps) =~= Seq::<Seq<char>>::empty());
    }
    assert(names_exactly("draft_orders/{id}"@, seq!["id"@])) by {
        reveal_strlit("draft_orders/");
        reveal_strlit("draft_orders/{id}");
        reveal_strlit("id");
        let ps = seq![(false, "draft_orders/"@), (true, "id"@)];
        reveal_with_fuel(render, 3);
        reveal_with_fuel(slot_names, 3);
        assert(brace_free(ps[0].1));
        assert(brace_free(ps[1].1));
        assert(render(ps) =~= "draft_orders/{id}"@);
        assert(slot_names(ps) =~= seq!["id"@]);
    }
    assert(names_exactly("draft_orders/{id}"@, seq!["id"@])) by {
        reveal_strlit("draft_orders/");
        reveal_strlit("draft_orders/{id}");
        reveal_strlit("id");
        let ps = seq![(false, "draft_orders/"@), (true, "id"@)];
        reveal_with_fuel(render, 3);
        reveal_with_fuel(slot_names, 3);
        assert(brace_free(ps[0].1));
        assert(brace_free(ps[1].1));
        assert(render(ps) =~= "draft_orders/{id}"@);
        assert(slot_names(ps) =~= seq!["id"@]);
    }
    let v = DraftOrder::path_views();
    assert forall|k: int| 0 <= k < v.len() implies names_exactly(#[trigger] v[k].3, v[k].2) by {
        if k == 0 {} else if k == 1 {} else if k == 2 {} else if k == 3 {} else if k == 4 {} else if k == 5 {}
    }
    reveal_strlit("id");
    assert("id"@ =~= seq!['i', 'd']);
    assert forall|k: int| 0 <= k < v.len() implies ends_with_id(#[trigger] v[k]) by {
        if k == 0 {} else if k == 1 {} else if k == 2 {} else if k == 3 {} else if k == 4 {} else if k == 5 {}
    }
}

/// Every path of `Event` names in its template exactly the IDs it requires, and a path that finds, updates or deletes one resource ends with its `id`.
pub proof fn lemma_event_paths()
    ensures
        templates_name_ids(Event::path_views()),
        ids_end_with_id(Event::path_views()),
{
    assert(names_exactly("events/{id}"@, seq!["id"@])) by {
        reveal_strlit("events/");
        reveal_strlit("events/{id}");
        reveal_strlit("id");
        let ps = seq![(false, "events/"@), (true, "id"@)];
        reveal_with_fuel(render, 3);
        reveal_with_fuel(slot_names, 3);
        assert(brace_free(ps[0].1));
        assert(brace_free(ps[1].1));
        assert(render(ps) =~= "events/{id}"@);
        assert(slot_names(ps) =~= seq!["id"@]);
    }
    assert(names_exactly("events"@, Seq::<Seq<char>>::empty())) by {
        reveal_strlit("events");
        let ps = seq![(false, "events"@)];
        reveal_with_fuel(render, 2);
        reveal_with_fuel(slot_names, 2);
        assert(brace_free(ps[0].1));
        assert(render(ps) =~= "events"@);
        assert(slot_names(ps) =~= Seq::<Seq<char>>::empty());
    }
    assert(names_exactly("events/count"@, Seq::<Seq<char>>::empty())) by {
        reveal_strlit("events/count");
        let ps = seq![(false, "events/count"@)];
        reveal_with_fuel(render, 2);
        reveal_with_fuel(slot_names, 2);
        assert(brace_free(ps[0].1));
        assert(render(ps) =~= "events/count"@);
        assert(slot_names(ps) =~= Seq::<Seq<char>>::empty());
    }
    assert(names_exactly("orders/{order_id}/events"@, seq!["order_id"@])) by {
        reveal_strlit("/events");
        reveal_strlit("order_id");
        reveal_strlit("orders/");
        reveal_strlit("orders/{order_id}/events");
        let ps = seq![(false, "orders/"@), (true, "order_id"@), (false, "/events"@)];
        reveal_with_fuel(render, 4);
        reveal_with_fuel(slot_names, 4);
        assert(brace_free(ps[0].1));
        assert(brace_free(ps[1].1));
        assert(brace_free(ps[2].1));
        assert(render(ps) =~= "orders/{order_id}/events"@);
        assert(slot_names(ps) =~= seq!["order_id"@]);
    }
    assert(names_exactly("orders/{order_id}/events/count"@, seq!["order_id"@])) by {
        reveal_strlit("/events/count");
        reveal_strlit("order_id");
        reveal_strlit("orders/");
        reveal_strlit("orders/{order_id}/events/count");
        let ps = seq![(false, "orders/"@), (true, "order_id"@), (false, "/events/count"@)];
        reveal_with_fuel(render, 4);
        reveal_with_fuel(slot_names, 4);
        assert(brace_free(ps[0].1));
        assert(brace_free(ps[1].1));
        assert(brace_free(ps[2].1));
        assert(render(ps) =~= "orders/{order_id}/events/count"@);
        assert(slot_names(ps) =~= seq!["order_id"@]);
    }
    assert(names_exactly("products/{product_id}/events"@, seq!["product_id"@])) by {
        reveal_strlit("/events");
        reveal_strlit("product_id");
        reveal_strlit("products/");
        reveal_strlit("products/{product_id}/events");
        let ps = seq![(false, "products/"@), (true, "product_id"@), (false, "/events"@)];
        reveal_with_fuel(render, 4);
        reveal_with_fuel(slot_names, 4);
        assert(brace_free(ps[0].1));
        assert(brace_free(ps[1].1));
        assert(brace_free(ps[2].1));
        assert(render(ps) =~= "products/{product_id}/events"@);
        assert(slot_names(ps) =~= seq!["product_id"@]);
    }
    assert(names_exactly("products/{product_id}/events/count"@, seq!["product_id"@])) by {
        reveal_strlit("/events/count");
        reveal_strlit("product_id");
        reveal_strlit("products/");
        reveal_strlit("products/{product_id}/events/count");
        let ps = seq![(false, "products/"@), (true, "product_id"@), (false, "/events/count"@)];
        reveal_with_fuel(render, 4);
        reveal_with_fuel(slot_names, 4);
        assert(brace_free(ps[0].1));
        assert(brace_free(ps[1].1));
        assert(brace_free(ps[2].1));
        assert(render(ps) =~= "products/{product_id}/events/count"@);
        assert(slot_names(ps) =~= seq!["product_id"@]);
    }
    let v = Event::path_views();
    assert forall|k: int| 0 <= k < v.len() implies names_exactly(#[trigger] v[k].3, v[k].2) by {
        if k == 0 {} else if k == 1 {} else if k == 2 {} else if k == 3 {} else if k == 4 {} else if k == 5 {} else if k == 6 {}
    }
    reveal_strlit("id");
    assert("id"@ =~= seq!['i', 'd']);
    assert forall|k: int| 0 <= k < v.len() implies ends_with_id(#[trigger] v[k]) by {
        if k == 0 {} else if k == 1 {} else if k == 2 {} else if k == 3 {} else if k == 4 {} else if k == 5 {} else if k == 6 {}
    }
}

/// Every path of `Fulfillment` names in its template exactly the IDs it requires, and a path that finds, updates or deletes one resource ends with its `id`.
pub proof fn lemma_fulfillment_paths()
    ensures
        templates_name_ids(Fulfillment::path_views()),
        ids_end_with_id(Fulfillment::path_views()),
{
    assert(names_exactly("orders/{order_id}/fulfillments/{id}"@, seq!["order_id"@, "id"@])) by {
        reveal_strlit("/fulfillments/");
        reveal_strlit("id");
        reveal_strlit("order_id");
        reveal_strlit("orders/");
        reveal_strlit("orders/{order_id}/fulfillments/{id}");
        let ps = seq![(false, "orders/"@), (true, "order_id"@), (false, "/fulfillments/"@), (true, "id"@)];
        reveal_with_fuel(render, 5);
        reveal_with_fuel(slot_names, 5);
        assert(brace_free(ps[0].1));
        assert(brace_free(ps[1].1));
        assert(brace_free(ps[2].1));
        assert(brace_free(ps[3].1));
        assert(render(ps) =~= "orders/{order_id}/fulfillments/{id}"@);
        assert(slot_names(ps) =~= seq!["order_id"@, "id"@]);
    }
    assert(names_exactly("orders/{order_id}/fulfillments"@, seq!["order_id"@])) by {
        reveal_strlit("/fulfillments");
        reveal_strlit("order_id");
        reveal_strlit("orders/");
        reveal_strlit("orders/{order_id}/fulfillments");
        let ps = seq![(false, "orders/"@), (true, "order_id"@), (false, "/fulfillments"@)];
        reveal_with_fuel(render, 4);
        reveal_with_fuel(slot_names, 4);
        assert(brace_free(ps[0].1));
        assert(brace_free(ps[1].1));
        assert(brace_free(ps[2].1));
        assert(render(ps) =~= "orders/{order_id}/fulfillments"@);
        assert(slot_names(ps) =~= seq!["order_id"@]);
    }
    assert(names_exactly("orders/{order_id}/fulfillments/count"@, seq!["order_id"@])) by {
        reveal_strlit("/fulfillments/count");
        reveal_strlit("order_id");
        reveal_strlit("orders/");
        reveal_strlit("orders/{order_id}/fulfillments/count");
        let ps = seq![(false, "orders/"@), (true, "order_id"@), (false, "/fulfillments/count"@)];
        reveal_with_fuel(render, 4);
        reveal_with_fuel(slot_names, 4);
        assert(brace_free(ps[0].1));
        assert(brace_free(ps[1].1));
        assert(brace_free(ps[2].1));
        assert(render(ps) =~= "orders/{order_id}/fulfillments/count"@);
        assert(slot_names(ps) =~= seq!["order_id"@]);
    }
    assert(names_exactly("orders/{order_id}/fulfillments"@, seq!["order_id"@])) by {
        reveal_strlit("/fulfillments");
        reveal_strlit("order_id");
        reveal_strlit("orders/");
        reveal_strlit("orders/{order_id}/fulfillments");
        let ps = seq![(false, "orders/"@), (true, "order_id"@), (false, "/fulfillments"@)];
        reveal_with_fuel(render, 4);
        reveal_with_fuel(slot_names, 4);
        assert(brace_free(ps[0].1));
        assert(brace_free(ps[1].1));
        assert(brace_free(ps[2].1));
        assert(render(ps) =~= "orders/{order_id}/fulfillments"@);
        assert(slot_names(ps) =~= seq!["order_id"@]);
    }
    assert(names_exactly("orders/{order_id}/fulfillments/{id}"@, seq!["order_id"@, "id"@])) by {
        reveal_strlit("/fulfillments/");
        reveal_strlit("id");
        reveal_strlit("order_id");
        reveal_strlit("orders/");
        reveal_strlit("orders/{order_id}/fulfillments/{id}");
        let ps = seq![(false, "orders/"@), (true, "order_id"@), (false, "/fulfillments/"@), (true, "id"@)];
        reveal_with_fuel(render, 5);
        reveal_with_fuel(slot_names, 5);
        assert(brace_free(ps[0].1));
        assert(brace_free(ps[1].1));
        assert(brace_free(ps[2].1));
        assert(brace_free(ps[3].1));
        assert(render(ps) =~= "orders/{order_id}/fulfillments/{id}"@);
        assert(slot_names(ps) =~= seq!["order_id"@, "id"@]);
    }
    let v = Fulfillment::path_views();
    assert forall|k: int| 0 <= k < v.len() implies names_exactly(#[trigger] v[k].3, v[k].2) by {
        if k == 0 {} else if k == 1 {} else if k == 2 {} else if k == 3 {} else if k == 4 {}
    }
    reveal_strlit("id");
    assert("id"@ =~= seq!['i', 'd']);
    assert forall|k: int| 0 <= k < v.len() implies ends_with_id(#[trigger] v[k]) by {
        if k == 0 {} else if k == 1 {} else if k == 2 {} else if k == 3 {} else if k == 4 {}
    }
}

/// Every path of `FulfillmentOrder` names in its template exactly the IDs it requires, and a path that finds, updates or deletes one resource ends with its `id`.
pub proof fn lemma_fulfillment_order_paths()
    ensures
        templates_name_ids(FulfillmentOrder::path_views()),
        ids_end_with_id(FulfillmentOrder::path_views()),
{
    assert(names_exactly("fulfillment_orders/{id}"@, seq!["id"@])) by {
        reveal_strlit("fulfillment_orders/");
        reveal_strlit("fulfillment_orders/{id}");
        reveal_strlit("id");
        let ps = seq![(false, "fulfillment_orders/"@), (true, "id"@)];
        reveal_with_fuel(render, 3);
        reveal_with_fuel(slot_names, 3);
        assert(brace_free(ps[0].1));
        assert(brace_free(ps[1].1));
        assert(render(ps) =~= "fulfillment_orders/{id}"@);
        assert(slot_names(ps) =~= seq!["id"@]);
    }
    assert(names_exactly("orders/{order_id}/fulfillment_orders"@, seq!["order_id"@])) by {
        reveal_strlit("/fulfillment_orders");
        reveal_strlit("order_id");
        reveal_strlit("orders/");
        reveal_strlit("orders/{order_id}/fulfillment_orders");
        let ps = seq![(false, "orders/"@), (true, "order_id"@), (false, "/fulfillment_orders"@)];
        reveal_with_fuel(render, 4);
        reveal_with_fuel(slot_names, 4);
        assert(brace_free(ps[0].1));
        assert(brace_free(ps[1].1));
        assert(brace_free(ps[2].1));
        assert(render(ps) =~= "orders/{order_id}/fulfillment_orders"@);
        assert(slot_names(ps) =~= seq!["order_id"@]);
    }
    let v = FulfillmentOrder::path_views();
    assert forall|k: int| 0 <= k < v.len() implies names_exactly(#[trigger] v[k].3, v[k].2) by {
        if k == 0 {} else if k == 1 {}
    }
    reveal_strlit("id");
    assert("id"@ =~= seq!['i', 'd']);
    assert forall|k: int| 0 <= k < v.len() implies ends_with_id(#[trigger] v[k]) by {
        if k == 0 {} else if k == 1 {}
    }
}

/// Every path of `FulfillmentService` names in its template exactly the IDs it requires, and a path that finds, updates or deletes one resource ends with its `id`.
pub proof fn lemma_fulfillment_service_paths()
    ensures
        templates_name_ids(FulfillmentService::path_views()),
        ids_end_with_id(FulfillmentService::path_views()),
{
    assert(names_exactly("fulfillment_services/{id}"@, seq!["id"@])) by {
        reveal_strlit("fulfillment_services/");
        reveal_strlit("fulfillment_services/{id}");
        reveal_strlit("id");
        let ps = seq![(false, "fulfillment_services/"@), (true, "id"@)];
        reveal_with_fuel(render, 3);
        reveal_with_fuel(slot_names, 3);
        assert(brace_free(ps[0].1));
        assert(brace_free(ps[1].1));
        assert(render(ps) =~= "fulfillment_services/{id}"@);
        assert(slot_names(ps) =~= seq!["id"@]);
    }
    assert(names_exactly("fulfillment_services"@, Seq::<Seq<char>>::empty())) by {
        reveal_strlit("fulfillment_services");
        let ps = seq![(false, "fulfillment_services"@)];
        reveal_with_fuel(render, 2);
        reveal_with_fuel(slot_names, 2);
        assert(brace_free(ps[0].1));
        assert(render(ps) =~= "fulfillment_services"@);
        assert(slot_names(ps) =~= Seq::<Seq<char>>::empty());
    }
    assert(names_exactly("fulfillment_services"@, Seq::<Seq<char>>::empty())) by {
        reveal_strlit("fulfillment_services");
        let ps = seq![(false, "fulfillment_services"@)];
        reveal_with_fuel(render, 2);
        reveal_with_fuel(slot_names, 2);
        assert(brace_free(ps[0].1));
        assert(render(ps) =~= "fulfillment_services"@);
        assert(slot_names(ps) =~= Seq::<Seq<char>>::empty());
    }
    assert(names_exactly("fulfillment_services/{id}"@, seq!["id"@])) by {
        reveal_strlit("fulfillment_services/");
        reveal_strlit("fulfillment_services/{id}");
        reveal_strlit("id");
        let ps = seq![(false, "fulfillment_services/"@), (true, "id"@)];
        reveal_with_fuel(render, 3);
        reveal_with_fuel(slot_names, 3);
        assert(brace_free(ps[0].1));
        assert(brace_free(ps[1].1));
        assert(render(ps) =~= "fulfillment_services/{id}"@);
        assert(slot_names(ps) =~= seq!["id"@]);
    }
    assert(names_exactly("fulfillment_services/{id}"@, seq!["id"@])) by {
        reveal_strlit("fulfillment_services/");
        reveal_strlit("fulfillment_services/{id}");
        reveal_strlit("id");
        let ps = seq![(false, "fulfillment_services/"@), (true, "id"@)];
        reveal_with_fuel(render, 3);
        reveal_with_fuel(slot_names, 3);
        assert(brace_free(ps[0].1));
        assert(brace_free(ps[1].1));
        assert(render(ps) =~= "fulfillment_services/{id}"@);
        assert(slot_names(ps) =~= seq!["id"@]);
    }
    let v = FulfillmentService::path_views();
    assert forall|k: int| 0 <= k < v.len() implies names_exactly(#[trigger] v[k].3, v[k].2) by {
        if k == 0 {} else if k == 1 {} else if k == 2 {} else if k == 3 {} else if k == 4 {}
    }
    reveal_strlit("id");
    assert("id"@ =~= seq!['i', 'd']);
    assert forall|k: int| 0 <= k < v.len() implies ends_with_id(#[trigger] v[k]) by {
        if k == 0 {} else if k == 1 {} else if k == 2 {} else if k == 3 {} else if k == 4 {}
    }
}

/// Every path of `GiftCard` names in its template exactly the IDs it requires, and a path that finds, updates or deletes one resource ends with its `id`.
pub proof fn lemma_gift_card_paths()
    ensures
        templates_name_ids(GiftCard::path_views()),
        ids_end_with_id(GiftCard::path_views()),
{
    assert(names_exactly("gift_cards/{id}"@, seq!["id"@])) by {
        reveal_strlit("gift_cards/");
        reveal_strlit("gift_cards/{id}");
        reveal_strlit("id");
        let ps = seq![(false, "gift_cards/"@), (true, "id"@)];
        reveal_with_fuel(render, 3);
        reveal_with_fuel(slot_names, 3);
        assert(brace_free(ps[0].1));
        assert(brace_free(ps[1].1));
        assert(render(ps) =~= "gift_cards/{id}"@);
        assert(slot_names(ps) =~= seq!["id"@]);
    }
    assert(names_exactly("gift_cards"@, Seq::<Seq<char>>::empty())) by {
        reveal_strlit("gift_cards");
        let ps = seq![(false, "gift_cards"@)];
        reveal_with_fuel(render, 2);
        reveal_with_fuel(slot_names, 2);
        assert(brace_free(ps[0].1));
        assert(render(ps) =~= "gift_cards"@);
        assert(slot_names(ps) =~= Seq::<Seq<char>>::empty());
    }
    assert(names_exactly("gift_cards/count"@, Seq::<Seq<char>>::empty())) by {
        reveal_strlit("gift_cards/count");
        let ps = seq![(false, "gift_cards/count"@)];
        reveal_with_fuel(render, 2);
        reveal_with_fuel(slot_names, 2);
        assert(brace_free(ps[0].1));
        assert(render(ps) =~= "gift_cards/count"@);
        assert(slot_names(ps) =~= Seq::<Seq<char>>::empty());
    }
    assert(names_exactly("gift_cards"@, Seq::<Seq<char>>::empty())) by {
        reveal_strlit("gift_cards");
        let ps = seq![(false, "gift_cards"@)];
        reveal_with_fuel(render, 2);
        reveal_with_fuel(slot_names, 2);
        assert(brace_free(ps[0].1));
        assert(render(ps) =~= "gift_cards"@);
        assert(slot_names(ps) =~= Seq::<Seq<char>>::empty());
    }
    assert(names_exactly("gift_cards/{id}"@, seq!["id"@])) by {
        reveal_strlit("gift_cards/");
        reveal_strlit("gift_cards/{id}");
        reveal_strlit("id");
        let ps = seq![(false, "gift_cards/"@), (true, "id"@)];
        reveal_with_fuel(render, 3);
        reveal_with_fuel(slot_names, 3);
        assert(brace_free(ps[0].1));
        assert(brace_free(ps[1].1));
        assert(render(ps) =~= "gift_cards/{id}"@);
        assert(slot_names(ps) =~= seq!["id"@]);
    }
    let v = GiftCard::path_views();
    assert forall|k: int| 0 <= k < v.len() implies names_exactly(#[trigger] v[k].3, v[k].2) by {
        if k == 0 {} else if k == 1 {} else if k == 2 {} else if k == 3 {} else if k == 4 {}
    }
    reveal_strlit("id");
    assert("id"@ =~= seq!['i', 'd']);
    assert forall|k: int| 0 <= k < v.len() implies ends_with_id(#[trigger] v[k]) by {
        if k == 0 {} else if k == 1 {} else if k == 2 {} else if k == 3 {} else if k == 4 {}
    }
}

/// Every path of `InventoryItem` names in its template exactly the IDs it requires, and a path that finds, updates or deletes one resource ends with its `id`.
pub proof fn lemma_inventory_item_paths()
    ensures
        templates_name_ids(InventoryItem::path_views()),
        ids_end_with_id(InventoryItem::path_views()),
{
    assert(names_exactly("inventory_items/{id}"@, seq!["id"@])) by {
        reveal_strlit("id");
        reveal_strlit("inventory_items/");
        reveal_strlit("inventory_items/{id}");
        let ps = seq![(false, "inventory_items/"@), (true, "id"@)];
        reveal_with_fuel(render, 3);
        reveal_with_fuel(slot_names, 3);
        assert(brace_free(ps[0].1));
        assert(brace_free(ps[1].1));
        assert(render(ps) =~= "inventory_items/{id}"@);
        assert(slot_names(ps) =~= seq!["id"@]);
    }
    assert(names_exactly("inventory_items"@, Seq::<Seq<char>>::empty())) by {
        reveal_strlit("inventory_items");
        let ps = seq![(false, "inventory_items"@)];
        reveal_with_fuel(render, 2);
        reveal_with_fuel(slot_names, 2);
        assert(brace_free(ps[0].1));
        assert(render(ps) =~= "inventory_items"@);
        assert(slot_names(ps) =~= Seq::<Seq<char>>::empty());
    }
    assert(names_exactly("inventory_items/{id}"@, seq!["id"@])) by {
        reveal_strlit("id");
        reveal_strlit("inventory_items/");
        reveal_strlit("inventory_items/{id}");
        let ps = seq![(false, "inventory_items/"@), (true, "id"@)];
        reveal_with_fuel(render, 3);
        reveal_with_fuel(slot_names, 3);
        assert(brace_free(ps[0].1));
        assert(brace_free(ps[1].1));
        assert(render(ps) =~= "inventory_items/{id}"@);
        assert(slot_names(ps) =~= seq!["id"@]);
    }
    let v = InventoryItem::path_views();
    assert forall|k: int| 0 <= k < v.len() implies names_exactly(#[trigger] v[k].3, v[k].2) by {
        if k == 0 {} else if k == 1 {} else if k == 2 {}
    }
    reveal_strlit("id");
    assert("id"@ =~= seq!['i', 'd']);
    assert forall|k: int| 0 <= k < v.len() implies ends_with_id(#[trigger] v[k]) by {
        if k == 0 {} else if k == 1 {} else if k == 2 {}
    }
}

/// Every path of `InventoryLevel` names in its template exactly the IDs it requires, and a path that finds, updates or deletes one resource ends with its `id`.
pub proof fn lemma_inventory_level_paths()
    ensures
        templates_name_ids(InventoryLevel::path_views()),
        ids_end_with_id(InventoryLevel::path_views()),
{
    assert(names_exactly("inventory_levels"@, Seq::<Seq<char>>::empty())) by {
        reveal_strlit("inventory_levels");
        let ps = seq![(false, "inventory_levels"@)];
        reveal_with_fuel(render, 2);
        reveal_with_fuel(slot_names, 2);
        assert(brace_free(ps[0].1));
        assert(render(ps) =~= "inventory_levels"@);
        assert(slot_names(ps) =~= Seq::<Seq<char>>::empty());
    }
    let v = InventoryLevel::path_views();
    assert forall|k: int| 0 <= k < v.len() implies names_exactly(#[trigger] v[k].3, v[k].2) by {
        if k == 0 {}
    }
    reveal_strlit("id");
    assert("id"@ =~= seq!['i', 'd']);
    assert forall|k: int| 0 <= k < v.len() implies ends_with_id(#[trigger] v[k]) by {
        if k == 0 {}
    }
}

} // verus!
