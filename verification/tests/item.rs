use e7::item::Item;

#[test]
fn item_tables() {
    assert_eq!(Item::ALL, [Item::Cov, Item::Mys, Item::Fb]);
    let names: Vec<&str> = Item::ALL.iter().map(|i| i.name()).collect();
    assert_eq!(names, ["Covenant bookmark", "Mystic medal", "Friendship points"]);
    let gold: Vec<u32> = Item::ALL.iter().map(|i| i.gold()).collect();
    assert_eq!(gold, [184_000, 280_000, 18_000]);
    let assets: Vec<&str> = Item::ALL.iter().map(|i| i.asset()).collect();
    assert_eq!(assets, ["cov.png", "mys.png", "fb.png"]);
    let keys: Vec<&str> = Item::ALL.iter().map(|i| i.key()).collect();
    assert_eq!(keys, ["covenant", "mystic", "friendship"]);
}
