//! Metafield owner types for polymorphic metafield paths.
use vstd::prelude::*;


verus! {

/// Represents the owner type of a metafield.
///
/// Metafields can be attached to various resource types in Shopify.
/// This enum is used to generate the correct API path for metafield operations.
#[derive(Debug, Clone, Copy, PartialEq, Eq, Hash)]
pub enum MetafieldOwner {
    /// Metafield belongs to a product.
    Product,
    /// Metafield belongs to a product variant.
    Variant,
    /// Metafield belongs to a customer.
    Customer,
    /// Metafield belongs to an order.
    Order,
    /// Metafield belongs to the shop (global metafields).
    Shop,
    /// Metafield belongs to a collection (custom or smart).
    Collection,
    /// Metafield belongs to a page.
    Page,
    /// Metafield belongs to a blog.
    Blog,
    /// Metafield belongs to an article.
    Article,
}

/// The path segment of the owner's resource collection (empty for the shop).
pub open spec fn owner_segment(o: MetafieldOwner) -> Seq<char> {
    match o {
        MetafieldOwner::Product => seq!['p', 'r', 'o', 'd', 'u', 'c', 't', 's'],
        MetafieldOwner::Variant => seq!['v', 'a', 'r', 'i', 'a', 'n', 't', 's'],
        MetafieldOwner::Customer => seq!['c', 'u', 's', 't', 'o', 'm', 'e', 'r', 's'],
        MetafieldOwner::Order => seq!['o', 'r', 'd', 'e', 'r', 's'],
        MetafieldOwner::Shop => Seq::<char>::empty(),
        MetafieldOwner::Collection => seq!['c', 'o', 'l', 'l', 'e', 'c', 't', 'i', 'o', 'n', 's'],
        MetafieldOwner::Page => seq!['p', 'a', 'g', 'e', 's'],
        MetafieldOwner::Blog => seq!['b', 'l', 'o', 'g', 's'],
        MetafieldOwner::Article => seq!['a', 'r', 't', 'i', 'c', 'l', 'e', 's'],
    }
}

/// The lowercase name of the owner type.
pub open spec fn owner_name(o: MetafieldOwner) -> Seq<char> {
    match o {
        MetafieldOwner::Product => seq!['p', 'r', 'o', 'd', 'u', 'c', 't'],
        MetafieldOwner::Variant => seq!['v', 'a', 'r', 'i', 'a', 'n', 't'],
        MetafieldOwner::Customer => seq!['c', 'u', 's', 't', 'o', 'm', 'e', 'r'],
        MetafieldOwner::Order => seq!['o', 'r', 'd', 'e', 'r'],
        MetafieldOwner::Shop => seq!['s', 'h', 'o', 'p'],
        MetafieldOwner::Collection => seq!['c', 'o', 'l', 'l', 'e', 'c', 't', 'i', 'o', 'n'],
        MetafieldOwner::Page => seq!['p', 'a', 'g', 'e'],
        MetafieldOwner::Blog => seq!['b', 'l', 'o', 'g'],
        MetafieldOwner::Article => seq!['a', 'r', 't', 'i', 'c', 'l', 'e'],
    }
}

impl MetafieldOwner {
    /// The path segment for the owner's resource collection: `products` for
    /// a product, and so on; empty for the shop, whose metafields have no
    /// parent path.
    pub fn to_path_segment(&self) -> (s: &'static str)
        ensures
            s@ == owner_segment(*self),
    {
        match self {
            MetafieldOwner::Product => {
                proof {
                    reveal_strlit("products");
                }
                "products"
            },
            MetafieldOwner::Variant => {
                proof {
                    reveal_strlit("variants");
                }
                "variants"
            },
            MetafieldOwner::Customer => {
                proof {
                    reveal_strlit("customers");
                }
                "customers"
            },
            MetafieldOwner::Order => {
                proof {
                    reveal_strlit("orders");
                }
                "orders"
            },
            MetafieldOwner::Shop => {
                proof {
                    reveal_strlit("");
                }
                ""
            },
            MetafieldOwner::Collection => {
                proof {
                    reveal_strlit("collections");
                }
                "collections"
            },
            MetafieldOwner::Page => {
                proof {
                    reveal_strlit("pages");
                }
                "pages"
            },
            MetafieldOwner::Blog => {
                proof {
                    reveal_strlit("blogs");
                }
                "blogs"
            },
            MetafieldOwner::Article => {
                proof {
                    reveal_strlit("articles");
                }
                "articles"
            },
        }
    }

    /// The lowercase name of the owner type (`product`, `shop`, ...).
    pub fn name(&self) -> (s: &'static str)
        ensures
            s@ == owner_name(*self),
    {
        match self {
            MetafieldOwner::Product => {
                proof {
                    reveal_strlit("product");
                }
                "product"
            },
            MetafieldOwner::Variant => {
                proof {
                    reveal_strlit("variant");
                }
                "variant"
            },
            MetafieldOwner::Customer => {
                proof {
                    reveal_strlit("customer");
                }
                "customer"
            },
            MetafieldOwner::Order => {
                proof {
                    reveal_strlit("order");
                }
                "order"
            },
            MetafieldOwner::Shop => {
                proof {
                    reveal_strlit("shop");
                }
                "shop"
            },
            MetafieldOwner::Collection => {
                proof {
                    reveal_strlit("collection");
                }
                "collection"
            },
            MetafieldOwner::Page => {
                proof {
                    reveal_strlit("page");
                }
                "page"
            },
            MetafieldOwner::Blog => {
                proof {
                    reveal_strlit("blog");
                }
                "blog"
            },
            MetafieldOwner::Article => {
                proof {
                    reveal_strlit("article");
                }
                "article"
            },
        }
    }
}

} // verus!
