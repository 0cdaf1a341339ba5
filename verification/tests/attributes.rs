use metrics_bridge::AttributeSet;
use metrics_bridge::AttributeValue;
use metrics_bridge::MetricAttribute;
use metrics_bridge::TypeScriptMetricsExporter;

fn attr(key: &str, value: AttributeValue) -> MetricAttribute {
    MetricAttribute { key: key.to_string(), value }
}

#[test]
fn empty_set_flattens_to_nothing() {
    let set = AttributeSet::new();
    assert_eq!(set.len(), 0);
    assert_eq!(set.flattened().len(), 0);
}

#[test]
fn extension_appends_without_removing() {
    let base = AttributeSet::from_entries(vec![attr("a", AttributeValue::Int(1))]);
    let extended = base.extend(vec![attr("b", AttributeValue::Int(2))]);
    assert_eq!(base.len(), 1);
    assert_eq!(extended.len(), 2);

    let flat = extended.flattened();
    assert_eq!(flat.len(), 2);
    assert_eq!(flat[0].key, "a");
    assert_eq!(flat[0].value, AttributeValue::Int(1));
    assert_eq!(flat[1].key, "b");
    assert_eq!(flat[1].value, AttributeValue::Int(2));
}

#[test]
fn two_extensions_flatten_like_one_combined_extension() {
    let base = AttributeSet::from_entries(vec![attr("a", AttributeValue::Flag(true))]);

    let stepwise = base
        .extend(vec![attr("k1", AttributeValue::Int(1))])
        .extend(vec![attr("k2", AttributeValue::Int(2))]);
    let combined = base.extend(vec![
        attr("k1", AttributeValue::Int(1)),
        attr("k2", AttributeValue::Int(2)),
    ]);

    assert_eq!(stepwise.flattened(), combined.flattened());
}

#[test]
fn later_applied_value_wins_on_collision() {
    let base = AttributeSet::from_entries(vec![attr("k", AttributeValue::Text("old".to_string()))]);
    let overridden = base.extend(vec![attr("k", AttributeValue::Text("new".to_string()))]);

    let flat = overridden.flattened();
    assert_eq!(flat.len(), 1);
    assert_eq!(flat[0].key, "k");
    assert_eq!(flat[0].value, AttributeValue::Text("new".to_string()));
}

#[test]
fn collision_across_extensions_matches_collision_within_one() {
    let base = AttributeSet::new();
    let stepwise = base
        .extend(vec![attr("k", AttributeValue::Int(1))])
        .extend(vec![attr("k", AttributeValue::Int(2))]);
    let combined = base.extend(vec![
        attr("k", AttributeValue::Int(1)),
        attr("k", AttributeValue::Int(2)),
    ]);

    assert_eq!(stepwise.flattened(), combined.flattened());
    assert_eq!(stepwise.flattened()[0].value, AttributeValue::Int(2));
}

#[test]
fn meter_factory_extends_a_base_set() {
    let meter = TypeScriptMetricsExporter::new();
    let base = meter.new_attributes(None, vec![attr("service", AttributeValue::Text("core".to_string()))]);
    let more = meter.new_attributes(Some(&base), vec![attr("task", AttributeValue::Int(7))]);

    assert_eq!(base.len(), 1);
    assert_eq!(more.len(), 2);
    let flat = more.flattened();
    assert_eq!(flat[0].key, "service");
    assert_eq!(flat[1].key, "task");
}
