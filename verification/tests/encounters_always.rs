use rust_wiki::text::replace_str;
use rust_wiki::wikitext::encounters::{always_appeared_at, always_mag_of, apply_always_appeared};

#[test]
fn test_always_appeared_at() {
    let constant = "{{Collapsible}}
        ===[[Collaboration Events|Collaboration Stages]]===
        *This stage: this map (20%)

        ===[[:Category:Removed Content|Removed Stages]]===
        *This stage (Dessert): this map (20%)
        *This stage: this map (20%)
        </div>";
    let correct = "{{Collapsible}}\n\
        This enemy has always appeared at 20% strength magnification.
        ===[[Collaboration Events|Collaboration Stages]]===
        *This stage: this map

        ===[[:Category:Removed Content|Removed Stages]]===
        *This stage (Dessert): this map
        *This stage: this map
        </div>";

    let f = &mut constant.to_string();
    always_appeared_at(f);
    assert_eq!(f, correct);
}

#[test]
fn always_appeared_left_alone() {
    let different = "{{Collapsible}}\n*a: b (20%)\n*c: d (30%)\n</div>";
    let mut f = different.to_string();
    always_appeared_at(&mut f);
    assert_eq!(f, different);

    let split = "{{Collapsible}}\n*a: b (20%)\n*c: d (100% HP/200% AP)\n</div>";
    let mut f = split.to_string();
    always_appeared_at(&mut f);
    assert_eq!(f, split);

    let several = "{{Collapsible}}\n*a: b (20%, 30%)\n*c: d (20%, 30%)\n</div>";
    let mut f = several.to_string();
    always_appeared_at(&mut f);
    assert_eq!(f, several);

    let none = "{{Collapsible}}\n*a: b\n</div>";
    let mut f = none.to_string();
    always_appeared_at(&mut f);
    assert_eq!(f, none);
}

#[test]
fn always_appeared_with_thousands() {
    let mut f = "{{Collapsible}}\n*a: b (1,200%)\n*c: d (1,200%)\n</div>".to_string();
    always_appeared_at(&mut f);
    assert_eq!(
        f,
        "{{Collapsible}}\nThis enemy has always appeared at 1,200% strength magnification.\n*a: b\n*c: d\n</div>"
    );
}

#[test]
fn always_mag_decisions() {
    let s = |v: &[&str]| v.iter().map(|x| x.to_string()).collect::<Vec<String>>();
    assert_eq!(always_mag_of(&s(&[" (20%)\n", " (20%)\n"]), &s(&[])), Some(" (20%)\n".to_string()));
    assert_eq!(always_mag_of(&s(&[" (20%)\n", " (30%)\n"]), &s(&[])), None);
    assert_eq!(always_mag_of(&s(&[" (20%)\n"]), &s(&["(1% HP/2% AP)\n"])), None);
    assert_eq!(always_mag_of(&s(&[" (20%, 30%)\n"]), &s(&[])), None);
    assert_eq!(always_mag_of(&s(&[]), &s(&[])), None);
}

#[test]
fn apply_note_and_strip() {
    let mut f = "{{Collapsible}}\nx (5%)\ny (5%)\nz".to_string();
    apply_always_appeared(&mut f, " (5%)\n", "5%");
    assert_eq!(f, "{{Collapsible}}\nThis enemy has always appeared at 5% strength magnification.\nx\ny\nz");
}

#[test]
fn replace_left_to_right() {
    assert_eq!(replace_str("aaaa", "aa", "b"), "bb");
    assert_eq!(replace_str("aaa", "aa", "b"), "ba");
    assert_eq!(replace_str("abcabc", "c", "xyz"), "abxyzabxyz");
    assert_eq!(replace_str("abc", "d", "e"), "abc");
    assert_eq!(replace_str("", "d", "e"), "");
}
