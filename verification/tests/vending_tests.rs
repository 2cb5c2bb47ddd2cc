use kata::Coin;
use kata::Product;
use kata::VendingMachine;

#[test]
fn test_add_product() {
    let mut vm = VendingMachine::new(3, 10);
    let product = Product { name: "Water".to_string(), price: 10 };
    assert!(vm.add_product(0, product.clone(), 5).is_ok());
    assert_eq!(vm.stock_of(0, "Water"), Some(5));
}

#[test]
fn test_add_product_exceed_capacity() {
    let mut vm = VendingMachine::new(3, 10);
    let product = Product { name: "Water".to_string(), price: 10 };
    assert!(vm.add_product(0, product.clone(), 15).is_err());
}

#[test]
fn test_add_coins() {
    let mut vm = VendingMachine::new(3, 10);
    vm.add_coins(Coin::Ten, 3);
    vm.add_coins(Coin::Five, 5);
    assert_eq!(vm.coin_count(Coin::Ten), 3);
    assert_eq!(vm.coin_count(Coin::Five), 5);
}

#[test]
fn test_can_give_change_true() {
    let mut vm = VendingMachine::new(3, 10);
    vm.add_coins(Coin::Ten, 1);
    vm.add_coins(Coin::Five, 1);
    assert!(vm.can_give_change(15));
}

#[test]
fn test_can_give_change_false() {
    let mut vm = VendingMachine::new(3, 10);
    vm.add_coins(Coin::Ten, 1);
    assert!(!vm.can_give_change(15));
}

#[test]
fn test_can_give_change_large_amount() {
    let mut vm = VendingMachine::new(3, 10);
    vm.add_coins(Coin::Fifty, 2);
    vm.add_coins(Coin::Twenty, 1);
    vm.add_coins(Coin::Ten, 1);
    assert!(vm.can_give_change(130));
}

#[test]
fn test_purchase_product_exact_price() {
    let mut vm = VendingMachine::new(1, 10);
    let product = Product { name: "Soda".to_string(), price: 10 };
    vm.add_product(0, product.clone(), 5).unwrap();
    vm.add_coins(Coin::Ten, 1);

    let inserted_coins = vec![Coin::Ten];
    let result = vm.purchase_product(0, "Soda", &inserted_coins);

    assert_eq!(result, Ok(0));
    assert_eq!(vm.stock_of(0, "Soda"), Some(4));
    assert_eq!(vm.coin_count(Coin::Ten), 2);
}

#[test]
fn test_purchase_product_with_change() {
    let mut vm = VendingMachine::new(1, 10);
    let product = Product { name: "Juice".to_string(), price: 7 };
    vm.add_product(0, product.clone(), 5).unwrap();
    vm.add_coins(Coin::One, 5);

    let inserted_coins = vec![Coin::Ten];
    let result = vm.purchase_product(0, "Juice", &inserted_coins);

    assert_eq!(result, Ok(3));
    assert_eq!(vm.stock_of(0, "Juice"), Some(4));
    assert_eq!(vm.coin_count(Coin::One), 2);
    assert_eq!(vm.coin_count(Coin::Ten), 1);
}

#[test]
fn coin_values_match_denominations() {
    assert_eq!(Coin::One.value(), 1);
    assert_eq!(Coin::Two.value(), 2);
    assert_eq!(Coin::Five.value(), 5);
    assert_eq!(Coin::Ten.value(), 10);
    assert_eq!(Coin::Twenty.value(), 20);
    assert_eq!(Coin::Fifty.value(), 50);
}

#[test]
fn purchase_rejects_bad_shelf_product_and_funds() {
    let mut vm = VendingMachine::new(1, 10);
    let product = Product { name: "Bar".to_string(), price: 12 };
    vm.add_product(0, product, 1).unwrap();

    assert_eq!(
        vm.purchase_product(9, "Bar", &[Coin::Twenty]),
        Err("Invalid shelf index".to_string())
    );
    assert_eq!(
        vm.purchase_product(0, "Chips", &[Coin::Twenty]),
        Err("Product not found on shelf".to_string())
    );
    assert_eq!(
        vm.purchase_product(0, "Bar", &[Coin::Ten]),
        Err("Not enough coins inserted".to_string())
    );
    // the pot has no coins at all, so the change of 8 cannot be paid
    assert_eq!(
        vm.purchase_product(0, "Bar", &[Coin::Twenty]),
        Err("Cannot provide exact change.".to_string())
    );
    // buy the one unit, then the shelf is out of stock
    assert_eq!(vm.purchase_product(0, "Bar", &[Coin::Ten, Coin::Two]), Ok(0));
    assert_eq!(
        vm.purchase_product(0, "Bar", &[Coin::Ten, Coin::Two]),
        Err("Product is out of stock".to_string())
    );
}

#[test]
fn add_product_rejects_bad_shelf_and_restocks_existing() {
    let mut vm = VendingMachine::new(2, 4);
    let water = Product { name: "Water".to_string(), price: 10 };
    assert_eq!(
        vm.add_product(5, water.clone(), 1),
        Err("Invalid shelf index".to_string())
    );
    vm.add_product(1, water.clone(), 2).unwrap();
    vm.add_product(1, water.clone(), 2).unwrap();
    assert_eq!(vm.stock_of(1, "Water"), Some(4));
    assert_eq!(
        vm.add_product(1, water, 1),
        Err("Exceeds shelf capacity".to_string())
    );
}

#[test]
fn greedy_change_prefers_large_coins() {
    let mut vm = VendingMachine::new(1, 10);
    let product = Product { name: "Gum".to_string(), price: 30 };
    vm.add_product(0, product, 2).unwrap();
    vm.add_coins(Coin::Twenty, 1);
    vm.add_coins(Coin::Ten, 2);
    vm.add_coins(Coin::Five, 2);

    // pay 50, change 20: one twenty leaves, the rest stays
    assert_eq!(vm.purchase_product(0, "Gum", &[Coin::Fifty]), Ok(20));
    assert_eq!(vm.coin_count(Coin::Twenty), 0);
    assert_eq!(vm.coin_count(Coin::Ten), 2);
    assert_eq!(vm.coin_count(Coin::Five), 2);
    assert_eq!(vm.coin_count(Coin::Fifty), 1);
}
