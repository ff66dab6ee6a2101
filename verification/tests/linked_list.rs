use rrtos::linked_list::LinkedList;
use rrtos::linked_list::ListItem;

#[derive(PartialEq, Debug)]
pub struct Point {
    x: u32,
    y: u32,
}

impl Point {
    fn new(x: u32, y: u32) -> Self {
        Point { x, y }
    }
}

#[test]
fn test_list() {
    let item1 = ListItem::new(1);
    let item2 = ListItem::new(2);
    let item3 = ListItem::new(3);
    let mut list = LinkedList::new();

    list.push_back(item1);
    assert_eq!(Some(&mut 1), list.front_mut());

    list.push_back(item2);
    list.push_back(item3);

    assert_eq!(Some(&mut 1), list.front_mut());
    let result1: u32 = list.pop_front().unwrap().value;
    assert_eq!(Some(&mut 2), list.front_mut());
    let result2: u32 = list.pop_front().unwrap().value;
    assert_eq!(Some(&mut 3), list.front_mut());
    let result3: u32 = list.pop_front().unwrap().value;
    assert_eq!(1, result1);
    assert_eq!(2, result2);
    assert_eq!(3, result3);

    assert!(list.is_empty());

    let item4 = ListItem::new(4);
    let item5 = ListItem::new(5);
    list.push_back(item4);
    list.push_back(item5);

    let result4: u32 = list.pop_front().unwrap().value;
    let result5: u32 = list.pop_front().unwrap().value;
    assert_eq!(4, result4);
    assert_eq!(5, result5);

    assert!(list.is_empty());
}

#[test]
fn test_list_boxed() {
    let boxed_item1 = Box::new(ListItem::new(1));
    let boxed_item2 = Box::new(ListItem::new(2));
    let boxed_item3 = Box::new(ListItem::new(3));
    let mut list = LinkedList::new();

    list.push_back(*boxed_item1);
    assert_eq!(Some(&mut 1), list.front_mut());

    list.push_back(*boxed_item2);
    list.push_back(*boxed_item3);

    assert_eq!(Some(&mut 1), list.front_mut());
    let result1: u32 = list.pop_front().unwrap().value;
    assert_eq!(Some(&mut 2), list.front_mut());
    let result2: u32 = list.pop_front().unwrap().value;
    assert_eq!(Some(&mut 3), list.front_mut());
    let result3: u32 = list.pop_front().unwrap().value;
    assert_eq!(1, result1);
    assert_eq!(2, result2);
    assert_eq!(3, result3);

    assert!(list.is_empty());

    let boxed_item4 = Box::new(ListItem::new(4));
    let boxed_item5 = Box::new(ListItem::new(5));
    list.push_back(*boxed_item4);
    list.push_back(*boxed_item5);

    let result4: u32 = list.pop_front().unwrap().value;
    let result5: u32 = list.pop_front().unwrap().value;
    assert_eq!(4, result4);
    assert_eq!(5, result5);

    assert!(list.is_empty());
}

#[test]
fn test_list_boxed_multibyte() {
    let boxed_item1 = Box::new(ListItem::new(Point::new(1, 2)));
    let boxed_item2 = Box::new(ListItem::new(Point::new(2, 4)));
    let boxed_item3 = Box::new(ListItem::new(Point::new(3, 6)));
    let mut list = LinkedList::new();

    list.push_back(*boxed_item1);
    assert_eq!(Some(&mut Point::new(1, 2)), list.front_mut());

    list.push_back(*boxed_item2);
    list.push_back(*boxed_item3);

    assert_eq!(Some(&mut Point::new(1, 2)), list.front_mut());
    let result1: Point = list.pop_front().unwrap().value;
    assert_eq!(Some(&mut Point::new(2, 4)), list.front_mut());
    let result2: Point = list.pop_front().unwrap().value;
    assert_eq!(Some(&mut Point::new(3, 6)), list.front_mut());
    let result3: Point = list.pop_front().unwrap().value;
    assert_eq!(Point::new(1, 2), result1);
    assert_eq!(Point::new(2, 4), result2);
    assert_eq!(Point::new(3, 6), result3);

    assert!(list.is_empty());

    let boxed_item4 = Box::new(ListItem::new(Point::new(4, 8)));
    let boxed_item5 = Box::new(ListItem::new(Point::new(5, 10)));
    list.push_back(*boxed_item4);
    list.push_back(*boxed_item5);

    let result4: Point = list.pop_front().unwrap().value;
    let result5: Point = list.pop_front().unwrap().value;
    assert_eq!(Point::new(4, 8), result4);
    assert_eq!(Point::new(5, 10), result5);

    assert!(list.is_empty());
}

#[test]
fn test_list_pop_empty() {
    let mut list: LinkedList<u32> = LinkedList::new();
    assert!(list.is_empty());
    assert!(list.pop_front().is_none());
    assert!(list.is_empty());
    list.push_back(ListItem::new(7));
    assert_eq!(7, list.pop_front().unwrap().value);
    assert!(list.pop_front().is_none());
}

#[test]
fn test_list_rotate() {
    let mut list = LinkedList::new();
    list.push_back(ListItem::new(10));
    list.push_back(ListItem::new(20));
    list.push_back(ListItem::new(30));

    list.rotate();
    assert_eq!(Some(&mut 20), list.front_mut());
    list.rotate();
    assert_eq!(Some(&mut 30), list.front_mut());
    list.rotate();
    assert_eq!(Some(&mut 10), list.front_mut());

    assert_eq!(10, list.pop_front().unwrap().value);
    assert_eq!(20, list.pop_front().unwrap().value);
    assert_eq!(30, list.pop_front().unwrap().value);
    assert!(list.is_empty());
}

#[test]
fn test_list_front_mut_writes_through() {
    let mut list = LinkedList::new();
    list.push_back(ListItem::new(1));
    list.push_back(ListItem::new(2));
    *list.front_mut().unwrap() = 9;
    assert_eq!(9, list.pop_front().unwrap().value);
    assert_eq!(2, list.pop_front().unwrap().value);
}
