use openai_rs::models::gpt_models::GptModel;

const ALL: [GptModel; 8] = [
    GptModel::Gpt35Turbo,
    GptModel::Gpt35Turbo16k,
    GptModel::Gpt35Turbo0613,
    GptModel::Gpt4,
    GptModel::Gpt40314,
    GptModel::Gpt432k,
    GptModel::Gpt432k0314,
    GptModel::Gpt40613,
];

#[test]
fn model_names_match_the_documentation() {
    assert_eq!(GptModel::Gpt35Turbo.to_string(), "gpt-3.5-turbo");
    assert_eq!(GptModel::Gpt35Turbo0613.to_string(), "gpt-3.5-turbo-0613");
    assert_eq!(GptModel::Gpt35Turbo16k.to_string(), "gpt-3.5-turbo-16k");
    assert_eq!(GptModel::Gpt4.to_string(), "gpt-4");
    assert_eq!(GptModel::Gpt40314.to_string(), "gpt-4-0314");
    assert_eq!(GptModel::Gpt40613.to_string(), "gpt-4-0613");
    assert_eq!(GptModel::Gpt432k.to_string(), "gpt-4-32k");
    assert_eq!(GptModel::Gpt432k0314.to_string(), "gpt-4-32k-0314");
}

#[test]
fn model_names_round_trip() {
    for model in ALL {
        let name = model.to_string();
        assert_eq!(GptModel::from_str(&name), model);
        assert_eq!(GptModel::from_string(&name), model);
        assert_eq!(GptModel::parse(&name), Some(model));
    }
}

#[test]
fn unknown_model_names_are_not_parsed() {
    assert_eq!(GptModel::parse(""), None);
    assert_eq!(GptModel::parse("gpt-5"), None);
    assert_eq!(GptModel::parse("gpt-4 "), None);
    assert_eq!(GptModel::parse("GPT-4"), None);
    assert_eq!(GptModel::parse("gpt-4-32k-031"), None);
}
