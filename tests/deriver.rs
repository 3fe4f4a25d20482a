use blueprint_lib::recipe::{
    amount_exceeds_one, amount_to_count, derive_blueprint, derive_combinator, derive_filters,
    derive_section, signal_item_count, CountRounding, Ingredient, IngredientMeta, IngredientType,
    Recipe, DERIVED_VERSION,
};
use blueprint_lib::schema::{BlueprintMeta, Comparator, Entity, Quality, SignalType};

fn ingredient(name: &str, amount: f64) -> Ingredient {
    Ingredient { ingredient_type: IngredientType::Item, name: name.to_string(), amount_bits: amount.to_bits() }
}

fn recipe(name: &str, results: Option<IngredientMeta>) -> Recipe {
    Recipe {
        recipe_type: "recipe".to_string(),
        name: name.to_string(),
        enabled: None,
        ingredients: None,
        results,
        energy_required_bits: None,
    }
}

fn catalog() -> Vec<Recipe> {
    vec![
        recipe("A", Some(IngredientMeta::List(vec![ingredient("A", 2.0)]))),
        recipe("B", Some(IngredientMeta::List(vec![ingredient("B", 1.0)]))),
        recipe("C", Some(IngredientMeta::List(vec![ingredient("X", 5.0)]))),
    ]
}

#[test]
fn deriver_selects_self_named_multi_output_recipes() {
    let section = derive_section(&catalog(), CountRounding::TowardZero);
    assert_eq!(section.filters.len(), 1);
    let f = &section.filters[0];
    assert_eq!(f.name, "A");
    assert_eq!(f.index, 1);
    assert_eq!(f.count, 2);
    assert_eq!(f.signal_type, Some(SignalType::Item));
    assert_eq!(f.comparator, Comparator::EqualTo);
    assert_eq!(f.quality, Quality::Normal);
    assert_eq!(f.max_count, None);
    assert_eq!(section.index, 0);
    assert!(section.active);
}

#[test]
fn deriver_on_empty_catalog_gives_an_empty_section() {
    let section = derive_section(&Vec::new(), CountRounding::TowardZero);
    assert!(section.filters.is_empty());
    assert_eq!(section.index, 0);
    assert!(section.active);
    assert_eq!(section.group, None);
    assert_eq!(section.multiplier, None);
}

#[test]
fn deriver_keeps_catalog_order_and_numbers_slots() {
    let mut rs = vec![
        recipe("iron", Some(IngredientMeta::List(vec![ingredient("iron", 3.5)]))),
        recipe("none", None),
        recipe("empty", Some(IngredientMeta::Empty)),
        recipe("copper", Some(IngredientMeta::List(vec![ingredient("slag", 9.0), ingredient("copper", 10.0)]))),
    ];
    rs.push(Recipe {
        results: Some(IngredientMeta::List(vec![Ingredient {
            ingredient_type: IngredientType::Fluid,
            name: "steam".to_string(),
            amount_bits: 60.0f64.to_bits(),
        }])),
        ..recipe("steam", None)
    });
    let fs = derive_filters(&rs, CountRounding::TowardZero);
    let names: Vec<&str> = fs.iter().map(|f| f.name.as_str()).collect();
    assert_eq!(names, vec!["iron", "copper", "steam"]);
    assert_eq!(fs.iter().map(|f| f.index).collect::<Vec<_>>(), vec![1, 2, 3]);
    assert_eq!(fs.iter().map(|f| f.count).collect::<Vec<_>>(), vec![3, 10, 60]);
    assert_eq!(fs[2].signal_type, Some(SignalType::Fluid));
}

#[test]
fn desired_item_takes_the_first_match() {
    let r = recipe("gear", Some(IngredientMeta::List(vec![
        ingredient("plate", 1.0),
        ingredient("gear", 4.0),
        ingredient("gear", 7.0),
    ])));
    let it = r.desired_item().unwrap();
    assert_eq!(it.name, "gear");
    assert_eq!(f64::from_bits(it.amount_bits), 4.0);
    assert_eq!(r.craft_count(), Some(4.0f64.to_bits()));
    assert_eq!(recipe("gear", Some(IngredientMeta::Empty)).desired_item(), None);
    assert_eq!(recipe("gear", None).craft_count(), None);
}

#[test]
fn amount_comparison_with_one() {
    assert!(!amount_exceeds_one(1.0f64.to_bits()));
    assert!(!amount_exceeds_one(0.5f64.to_bits()));
    assert!(!amount_exceeds_one((-2.0f64).to_bits()));
    assert!(!amount_exceeds_one(f64::NAN.to_bits()));
    assert!(!amount_exceeds_one(0.0f64.to_bits()));
    assert!(amount_exceeds_one(1.0000001f64.to_bits()));
    assert!(amount_exceeds_one(2.0f64.to_bits()));
    assert!(amount_exceeds_one(f64::INFINITY.to_bits()));
    assert!(amount_exceeds_one(f64::MAX.to_bits()));
}

#[test]
fn amount_to_count_truncates_and_saturates() {
    for x in [0.0f64, 0.5, 1.0, 1.9999, 2.0, 2.9, 3.5, 10.0, 60.0, 12345.678, 1e15, 4503599627370497.0, 9.2e18] {
        assert_eq!(amount_to_count(x.to_bits(), CountRounding::TowardZero), x as usize, "{}", x);
    }
    assert_eq!(amount_to_count(2.9f64.to_bits(), CountRounding::TowardZero), 2);
    assert_eq!(amount_to_count((-3.0f64).to_bits(), CountRounding::TowardZero), 0);
    assert_eq!(amount_to_count(f64::NAN.to_bits(), CountRounding::TowardZero), 0);
    assert_eq!(amount_to_count(f64::INFINITY.to_bits(), CountRounding::TowardZero), usize::MAX);
    assert_eq!(amount_to_count(1e30f64.to_bits(), CountRounding::TowardZero), usize::MAX);
    assert_eq!(amount_to_count(9223372036854775808.0f64.to_bits(), CountRounding::TowardZero), 9223372036854775808usize);
    assert_eq!(amount_to_count(f64::MIN_POSITIVE.to_bits(), CountRounding::TowardZero), 0);
}

#[test]
fn derived_combinator_is_fresh() {
    let c = derive_combinator(&catalog(), CountRounding::TowardZero);
    assert_eq!(c.entity_number, 1);
    assert_eq!(c.name(), "constant-combinator");
    assert_eq!(c.position.x_bits, 0);
    assert_eq!(c.sections().len(), 1);
    assert_eq!(c.sections()[0].filters.len(), 1);
}

#[test]
fn derived_blueprint_wraps_the_combinator() {
    match derive_blueprint(&catalog(), CountRounding::TowardZero) {
        BlueprintMeta::Blueprint { blueprint, index } => {
            assert_eq!(index, None);
            assert_eq!(blueprint.item, "blueprint");
            assert_eq!(blueprint.version, DERIVED_VERSION);
            assert_eq!(blueprint.version, 562949954928640);
            assert_eq!(blueprint.icons.len(), 1);
            assert_eq!(blueprint.label_color, None);
            assert_eq!(blueprint.description, None);
            assert_eq!(blueprint.snap_to_grid, None);
            assert_eq!(blueprint.absolute_snapping, None);
            assert_eq!(blueprint.position_relative_to_grid, None);
            assert_eq!(blueprint.icons[0].index, 1);
            assert_eq!(blueprint.icons[0].signal.name, "signal-info");
            assert_eq!(blueprint.icons[0].signal.signal_type, Some(SignalType::Virtual));
            let es = blueprint.entities.unwrap();
            assert_eq!(es.len(), 1);
            let Entity::ConstantCombinator(c) = &es[0];
            assert_eq!(c.sections()[0].filters[0].name, "A");
        }
        BlueprintMeta::Book { .. } => panic!("expected a blueprint"),
    }
}

#[test]
fn ingredient_type_names() {
    assert_eq!(IngredientType::Item.to_string(), "item");
    assert_eq!(IngredientType::Fluid.to_string(), "fluid");
    assert_eq!(IngredientType::from_name("fluid"), Ok(IngredientType::Fluid));
    assert!(IngredientType::from_name("gas").is_err());
}

#[test]
fn amount_to_count_rounds_to_nearest_when_asked() {
    let near = CountRounding::NearestTiesAway;
    for x in [0.0f64, 0.25, 0.49, 0.5, 0.75, 1.5, 2.4, 2.5, 2.6, 3.5, 12345.678, 1e15, 4503599627370495.5, 9.2e18] {
        assert_eq!(amount_to_count(x.to_bits(), near), x.round() as usize, "{}", x);
    }
    assert_eq!(amount_to_count(2.5f64.to_bits(), near), 3);
    assert_eq!(amount_to_count(2.5f64.to_bits(), CountRounding::TowardZero), 2);
    assert_eq!(amount_to_count((-2.5f64).to_bits(), near), 0);
    assert_eq!(amount_to_count(f64::NAN.to_bits(), near), 0);
    assert_eq!(amount_to_count(1e300f64.to_bits(), near), usize::MAX);
    assert_eq!(amount_to_count(f64::MIN_POSITIVE.to_bits(), near), 0);
}

#[test]
fn rounding_policy_reaches_the_filters() {
    let rs = vec![recipe("A", Some(IngredientMeta::List(vec![ingredient("A", 2.5)])))];
    assert_eq!(derive_filters(&rs, CountRounding::TowardZero)[0].count, 2);
    assert_eq!(derive_filters(&rs, CountRounding::NearestTiesAway)[0].count, 3);
}

#[test]
fn signal_item_count_counts_emitted_filters() {
    assert_eq!(signal_item_count(&catalog()), 1);
    assert_eq!(signal_item_count(&Vec::new()), 0);
    let many: Vec<Recipe> = (0..5).map(|_| recipe("A", Some(IngredientMeta::List(vec![ingredient("A", 3.0)])))).collect();
    assert_eq!(signal_item_count(&many), 5);
    assert_eq!(derive_filters(&many, CountRounding::TowardZero).len(), 5);
}
