use kube_agent::text::trim_white_space;

#[test]
fn white_space_is_cut_as_str_trim_cuts_it() {
    for text in [
        "",
        "   ",
        " token ",
        "\ttoken\r\n",
        "\u{a0}\u{2003}token\u{3000}",
        "to ken",
        "\u{200b}token",
        "token\u{85}",
    ] {
        assert_eq!(trim_white_space(text), text.trim(), "{text:?}");
    }
}
