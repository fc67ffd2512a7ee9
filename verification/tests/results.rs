use derivegr_gui::results::{
    fit_values, number_field, plot_file_name, read_fit_values, result_file_name, FitValues,
};

const FULL: &str = r#"{"event":"GW150914","fs":4096.0,"flow":30.0,"fhigh":350.0,
    "alpha":-3.6667,"K":1.5e-5,"Mc_solar":28.3}"#;

#[test]
fn file_names() {
    assert_eq!(result_file_name(), "fit_results.json");
    assert_eq!(plot_file_name(), "loglog_fit.png");
}

#[test]
fn reads_the_three_values() {
    let fit = read_fit_values(FULL).unwrap();
    assert_eq!(fit.alpha.map(f64::from_bits), Some(-3.6667));
    assert_eq!(fit.k.map(f64::from_bits), Some(1.5e-5));
    assert_eq!(fit.mc_solar.map(f64::from_bits), Some(28.3));
    assert_eq!(fit.alpha, Some((-3.6667f64).to_bits()));
}

#[test]
fn keys_are_matched_exactly() {
    let fit = read_fit_values(r#"{"Alpha":1.0,"k":2.0,"mc_solar":3.0,"flow":30.0}"#).unwrap();
    assert_eq!(
        fit,
        FitValues {
            alpha: None,
            k: None,
            mc_solar: None
        }
    );
}

#[test]
fn missing_members_stay_unset() {
    let fit = read_fit_values(r#"{"K": 2.5}"#).unwrap();
    assert_eq!(fit.alpha, None);
    assert_eq!(fit.k, Some(2.5f64.to_bits()));
    assert_eq!(fit.mc_solar, None);
}

#[test]
fn members_that_are_no_numbers_stay_unset() {
    let fit = read_fit_values(r#"{"alpha":"1.0","K":null,"Mc_solar":[30.0]}"#).unwrap();
    assert_eq!(fit.alpha, None);
    assert_eq!(fit.k, None);
    assert_eq!(fit.mc_solar, None);
}

#[test]
fn whole_numbers_are_read_as_reals() {
    let fit = read_fit_values(r#"{"alpha":-4,"K":7,"Mc_solar":0}"#).unwrap();
    assert_eq!(fit.alpha, Some((-4.0f64).to_bits()));
    assert_eq!(fit.k, Some(7.0f64.to_bits()));
    assert_eq!(fit.mc_solar, Some(0.0f64.to_bits()));
}

#[test]
fn json_that_is_no_object_gives_no_values() {
    for text in ["[1.0, 2.0]", "3.5", "\"alpha\"", "null", "true"] {
        let fit = read_fit_values(text).unwrap();
        assert_eq!(
            fit,
            FitValues {
                alpha: None,
                k: None,
                mc_solar: None
            }
        );
    }
}

#[test]
fn text_that_is_no_json_gives_none() {
    assert_eq!(read_fit_values(""), None);
    assert_eq!(read_fit_values("{"), None);
    assert_eq!(read_fit_values("{\"alpha\": 1.0,}"), None);
    assert_eq!(read_fit_values("alpha = 1.0"), None);
    assert_eq!(read_fit_values("{\"alpha\": 1.0} trailing"), None);
}

#[test]
fn number_field_on_a_value() {
    let v = serde_json::from_str::<serde_json::Value>(FULL).unwrap();
    assert_eq!(number_field(&v, "fs"), Some(4096.0f64.to_bits()));
    assert_eq!(number_field(&v, "event"), None);
    assert_eq!(number_field(&v, "absent"), None);
    let fit = fit_values(&v);
    assert_eq!(fit.mc_solar, Some(28.3f64.to_bits()));
}
