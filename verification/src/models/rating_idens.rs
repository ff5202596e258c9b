//! The columns of the rating tables. The ratings themselves carry
//! fractional scores and are handled outside this library.

use vstd::prelude::*;

verus! {

/// The columns of the `rating` table (and the table itself).
#[derive(Clone, Copy, Debug, PartialEq, Eq, Structural)]
pub enum RatingIden {
    Rating,
    RatingId,
    OrderId,
    TitipersId,
    JastiperRating,
    JastiperReview,
    ProductRating,
    ProductReview,
    ProductImages,
    CreatedAt,
}

impl RatingIden {
    /// The SQL name of the column (or table).
    pub fn name(&self) -> (r: &'static str)
        ensures
            r@ == match *self {
                RatingIden::Rating => "rating"@,
                RatingIden::RatingId => "rating_id"@,
                RatingIden::OrderId => "order_id"@,
                RatingIden::TitipersId => "titipers_id"@,
                RatingIden::JastiperRating => "jastiper_rating"@,
                RatingIden::JastiperReview => "jastiper_review"@,
                RatingIden::ProductRating => "product_rating"@,
                RatingIden::ProductReview => "product_review"@,
                RatingIden::ProductImages => "product_images"@,
                RatingIden::CreatedAt => "created_at"@,
            },
    {
        match self {
            RatingIden::Rating => "rating",
            RatingIden::RatingId => "rating_id",
            RatingIden::OrderId => "order_id",
            RatingIden::TitipersId => "titipers_id",
            RatingIden::JastiperRating => "jastiper_rating",
            RatingIden::JastiperReview => "jastiper_review",
            RatingIden::ProductRating => "product_rating",
            RatingIden::ProductReview => "product_review",
            RatingIden::ProductImages => "product_images",
            RatingIden::CreatedAt => "created_at",
        }
    }
}

/// The columns of the `rating_jastiper` table (and the table itself).
#[derive(Clone, Copy, Debug, PartialEq, Eq, Structural)]
pub enum RatingJastiperIden {
    RatingJastiper,
    RatingJastiperId,
    OrderId,
    TitipersId,
    JastiperRating,
    JastiperReview,
    CreatedAt,
}

impl RatingJastiperIden {
    /// The SQL name of the column (or table).
    pub fn name(&self) -> (r: &'static str)
        ensures
            r@ == match *self {
                RatingJastiperIden::RatingJastiper => "rating_jastiper"@,
                RatingJastiperIden::RatingJastiperId => "rating_jastiper_id"@,
                RatingJastiperIden::OrderId => "order_id"@,
                RatingJastiperIden::TitipersId => "titipers_id"@,
                RatingJastiperIden::JastiperRating => "jastiper_rating"@,
                RatingJastiperIden::JastiperReview => "jastiper_review"@,
                RatingJastiperIden::CreatedAt => "created_at"@,
            },
    {
        match self {
            RatingJastiperIden::RatingJastiper => "rating_jastiper",
            RatingJastiperIden::RatingJastiperId => "rating_jastiper_id",
            RatingJastiperIden::OrderId => "order_id",
            RatingJastiperIden::TitipersId => "titipers_id",
            RatingJastiperIden::JastiperRating => "jastiper_rating",
            RatingJastiperIden::JastiperReview => "jastiper_review",
            RatingJastiperIden::CreatedAt => "created_at",
        }
    }
}

/// The columns of the `rating_product` table (and the table itself).
#[derive(Clone, Copy, Debug, PartialEq, Eq, Structural)]
pub enum RatingProductIden {
    RatingProduct,
    RatingProductId,
    OrderId,
    TitipersId,
    ProductRating,
    ProductReview,
    ProductImages,
    CreatedAt,
}

impl RatingProductIden {
    /// The SQL name of the column (or table).
    pub fn name(&self) -> (r: &'static str)
        ensures
            r@ == match *self {
                RatingProductIden::RatingProduct => "rating_product"@,
                RatingProductIden::RatingProductId => "rating_product_id"@,
                RatingProductIden::OrderId => "order_id"@,
                RatingProductIden::TitipersId => "titipers_id"@,
                RatingProductIden::ProductRating => "product_rating"@,
                RatingProductIden::ProductReview => "product_review"@,
                RatingProductIden::ProductImages => "product_images"@,
                RatingProductIden::CreatedAt => "created_at"@,
            },
    {
        match self {
            RatingProductIden::RatingProduct => "rating_product",
            RatingProductIden::RatingProductId => "rating_product_id",
            RatingProductIden::OrderId => "order_id",
            RatingProductIden::TitipersId => "titipers_id",
            RatingProductIden::ProductRating => "product_rating",
            RatingProductIden::ProductReview => "product_review",
            RatingProductIden::ProductImages => "product_images",
            RatingProductIden::CreatedAt => "created_at",
        }
    }
}

} // verus!
