use daqlab::presentation::{PlotLayoutDefinition, PlotPaneDefinition, PlotPaneKey};

fn weight(value: f32) -> u32 {
    value.to_bits()
}

#[test]
fn validates_plot_layout() {
    let pane =
        PlotPaneDefinition::new(PlotPaneKey::new("temperature").unwrap(), "Temperature", weight(2.0))
            .unwrap();

    assert_eq!(PlotLayoutDefinition::new(vec![pane.clone()]).unwrap().panes(), vec![pane]);
    assert!(PlotLayoutDefinition::new(Vec::new()).is_err());
}

#[test]
fn rejects_duplicate_keys() {
    let pane = PlotPaneDefinition::new(PlotPaneKey::new("main").unwrap(), "Main", weight(1.0)).unwrap();

    assert!(PlotLayoutDefinition::new(vec![pane.clone(), pane]).is_err());
}

#[test]
fn validates_pane_keys() {
    assert_eq!(PlotPaneKey::new("_pane_2").unwrap().as_str(), "_pane_2");
    assert!(PlotPaneKey::new("2pane").is_err());
    assert!(PlotPaneKey::new("").is_err());
    assert!(PlotPaneKey::new("pane-2").is_err());
    assert_eq!(
        PlotPaneKey::new("bad key").unwrap_err().to_string(),
        "Invalid plot pane id 'bad key': use an ASCII letter or underscore first, followed by letters, digits or underscores"
    );
}

#[test]
fn validates_pane_titles_and_weights() {
    let key = PlotPaneKey::new("main").unwrap();
    assert_eq!(
        PlotPaneDefinition::new(key.clone(), " \t", weight(1.0)).unwrap_err().to_string(),
        "Plot pane title cannot be empty"
    );
    for invalid in [0.0_f32, -1.0, f32::NAN, f32::INFINITY, -0.0] {
        assert_eq!(
            PlotPaneDefinition::new(key.clone(), "Main", weight(invalid)).unwrap_err().to_string(),
            "Plot pane weight must be finite and greater than zero"
        );
    }
    let pane = PlotPaneDefinition::new(key, "Main", weight(0.5)).unwrap();
    assert_eq!(pane.title(), "Main");
    assert_eq!(f32::from_bits(pane.weight()), 0.5);
}

#[test]
fn names_repeated_pane_and_finds_keys() {
    let first = PlotPaneDefinition::new(PlotPaneKey::new("a").unwrap(), "A", weight(1.0)).unwrap();
    let second = PlotPaneDefinition::new(PlotPaneKey::new("b").unwrap(), "B", weight(1.0)).unwrap();
    let error = PlotLayoutDefinition::new(vec![first.clone(), second.clone(), first.clone()])
        .unwrap_err();
    assert_eq!(error.to_string(), "Plot pane 'a' is defined more than once");

    let layout = PlotLayoutDefinition::new(vec![first, second]).unwrap();
    assert!(layout.contains(&PlotPaneKey::new("b").unwrap()));
    assert!(!layout.contains(&PlotPaneKey::new("c").unwrap()));

    let default = PlotLayoutDefinition::default_layout();
    assert_eq!(default.panes().len(), 1);
    assert_eq!(default.panes()[0].key().as_str(), "main");
    assert_eq!(default.panes()[0].title(), "Plot");
    assert_eq!(f32::from_bits(default.panes()[0].weight()), 1.0);
}
