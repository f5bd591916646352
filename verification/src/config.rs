//! Configuration for creating a new store: an optional embedding model and a
//! JSON object of engine overrides, built with chained setters.

use vstd::prelude::*;

use crate::decimal::decimal_text;
use crate::json::{
    no_entries, object_clone, object_entries, object_insert, object_is_empty, object_new,
    object_text, object_to_text, unsigned_value, value_text,
};

verus! {

/// Configuration for creating a new SERAPH store.
///
/// Built with chained setters, e.g.
/// `StoreConfig::new().model_id("BAAI/bge-small-en-v1.5").eigen_threshold(5)`.
#[derive(Debug)]
pub struct StoreConfig {
    model_id: Option<String>,
    json_overrides: serde_json::Map<String, serde_json::Value>,
}

/// The text of an optional string.
pub open spec fn opt_text(s: Option<String>) -> Option<Seq<char>> {
    match s {
        Some(t) => Some(t@),
        None => None,
    }
}

impl StoreConfig {
    /// The embedding model chosen, if any.
    pub closed spec fn model(&self) -> Option<Seq<char>> {
        opt_text(self.model_id)
    }

    /// The overrides set so far: each option's name with the JSON text of its value.
    pub closed spec fn overrides(&self) -> Map<Seq<char>, Seq<char>> {
        object_entries(self.json_overrides)
    }

    /// A configuration with no model chosen and no overrides.
    pub fn new() -> (c: Self)
        ensures
            c.model().is_none(),
            c.overrides() == no_entries(),
    {
        StoreConfig { model_id: None, json_overrides: object_new() }
    }

    /// Chooses the embedding model.
    pub fn model_id(self, id: &str) -> (c: Self)
        ensures
            c.model() == Some(id@),
            c.overrides() == self.overrides(),
    {
        StoreConfig { model_id: Some(id.to_owned()), json_overrides: self.json_overrides }
    }

    fn with_unsigned(self, key: &str, v: u64) -> (c: Self)
        ensures
            c.model() == self.model(),
            c.overrides() == self.overrides().insert(key@, decimal_text(v as nat)),
    {
        let mut m = self.json_overrides;
        object_insert(&mut m, key.to_owned(), unsigned_value(v));
        StoreConfig { model_id: self.model_id, json_overrides: m }
    }

    /// Sets the override `key` to a JSON value (the options that take a
    /// floating-point number are set through this).
    pub fn with_value(self, key: &str, value: serde_json::Value) -> (c: Self)
        ensures
            c.model() == self.model(),
            c.overrides() == self.overrides().insert(key@, value_text(value)),
    {
        let mut m = self.json_overrides;
        object_insert(&mut m, key.to_owned(), value);
        StoreConfig { model_id: self.model_id, json_overrides: m }
    }

    /// Sets `eigen_threshold`.
    pub fn eigen_threshold(self, v: u32) -> (c: Self)
        ensures
            c.model() == self.model(),
            c.overrides() == self.overrides().insert("eigen_threshold"@, decimal_text(v as nat)),
    {
        self.with_unsigned("eigen_threshold", v as u64)
    }

    /// Sets `search_max_depth`.
    pub fn search_max_depth(self, v: u32) -> (c: Self)
        ensures
            c.model() == self.model(),
            c.overrides() == self.overrides().insert("search_max_depth"@, decimal_text(v as nat)),
    {
        self.with_unsigned("search_max_depth", v as u64)
    }

    /// Sets `search_visit_cap_multiplier`.
    pub fn search_visit_cap_multiplier(self, v: u32) -> (c: Self)
        ensures
            c.model() == self.model(),
            c.overrides() == self.overrides().insert(
                "search_visit_cap_multiplier"@,
                decimal_text(v as nat),
            ),
    {
        self.with_unsigned("search_visit_cap_multiplier", v as u64)
    }

    /// Sets `eigen_matmul_min`.
    pub fn eigen_matmul_min(self, v: usize) -> (c: Self)
        ensures
            c.model() == self.model(),
            c.overrides() == self.overrides().insert("eigen_matmul_min"@, decimal_text(v as nat)),
    {
        self.with_unsigned("eigen_matmul_min", v as u64)
    }

    /// The chosen model, as the engine is handed it.
    pub fn model_name(&self) -> (m: Option<String>)
        ensures
            opt_text(m) == self.model(),
    {
        match &self.model_id {
            Some(s) => Some(s.clone()),
            None => None,
        }
    }

    /// The overrides as one JSON object, or `None` when none were set.
    pub fn to_json_text(&self) -> (r: Option<String>)
        ensures
            r.is_none() <==> self.overrides() == no_entries(),
            match r {
                Some(t) => t@ == object_text(self.overrides()),
                None => true,
            },
    {
        if object_is_empty(&self.json_overrides) {
            None
        } else {
            Some(object_to_text(&self.json_overrides))
        }
    }

    /// What a store creation hands the engine for an optional configuration:
    /// the model name and the overrides text, both absent for `None`.
    pub fn creation_args(config: Option<StoreConfig>) -> (r: (Option<String>, Option<String>))
        ensures
            match config {
                Some(c) => {
                    &&& opt_text(r.0) == c.model()
                    &&& (r.1.is_none() <==> c.overrides() == no_entries())
                    &&& (r.1 matches Some(t) ==> t@ == object_text(c.overrides()))
                },
                None => r.0.is_none() && r.1.is_none(),
            },
    {
        let config = match config {
            Some(c) => c,
            None => StoreConfig::new(),
        };
        (config.model_name(), config.to_json_text())
    }
}

/// Setting the same option twice leaves only the later value.
pub proof fn law_later_setting_wins(c: StoreConfig, key: Seq<char>, first: Seq<char>, second: Seq<char>)
    ensures
        c.overrides().insert(key, first).insert(key, second) == c.overrides().insert(key, second),
{
    assert(c.overrides().insert(key, first).insert(key, second) =~= c.overrides().insert(key, second));
}

/// Settings of two different options give the same overrides in either order.
pub proof fn law_distinct_settings_commute(
    c: StoreConfig,
    k1: Seq<char>,
    v1: Seq<char>,
    k2: Seq<char>,
    v2: Seq<char>,
)
    requires
        k1 != k2,
    ensures
        c.overrides().insert(k1, v1).insert(k2, v2) == c.overrides().insert(k2, v2).insert(k1, v1),
{
    assert(c.overrides().insert(k1, v1).insert(k2, v2) =~= c.overrides().insert(k2, v2).insert(
        k1,
        v1,
    ));
}

impl Clone for StoreConfig {
    fn clone(&self) -> (c: Self)
        ensures
            c.model() == self.model(),
            c.overrides() == self.overrides(),
    {
        StoreConfig { model_id: self.model_name(), json_overrides: object_clone(&self.json_overrides) }
    }
}

impl Default for StoreConfig {
    fn default() -> (c: Self)
        ensures
            c.model().is_none(),
            c.overrides() == no_entries(),
    {
        StoreConfig::new()
    }
}

} // verus!
